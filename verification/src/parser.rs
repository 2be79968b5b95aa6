//! Verdicts of the model and the defense they call for.
//!
//! The model answers with text that should hold one JSON object
//! `{"action":"BLOCK"|"PASS","reason":…,"confidence":…}`. This module frames
//! that text (drops a reasoning block, a Markdown fence and surrounding
//! whitespace, and finds the first balanced JSON object); decoding the JSON
//! into a [`ThreatVerdict`] is done by the caller with a JSON library.
use vstd::prelude::*;
use crate::text::{
    char_vec, contains_seq, contains_str, ends_with, ends_with_str, find_vec, first_occurrence,
    last_index_of, lemma_first_occurrence_from, occurs_at, rfind_char, starts_with, starts_with_str, trim,
    trim_end, trim_start, trim_start_str, trim_str,
};

verus! {

// ---------------------------------------------------------------- types

/// What the model recommends for an IP.
#[derive(Debug, Clone, Copy, PartialEq, Eq, Structural)]
pub enum ThreatAction {
    Block,
    Pass,
}

/// A decoded verdict of the model.
///
/// The confidence is the model's number in `[0, 1]`, held as the bit pattern
/// of its IEEE-754 double (`f64::to_bits`), which orders non-negative values
/// as the numbers themselves.
#[derive(Debug, Clone, PartialEq)]
pub struct ThreatVerdict {
    pub action: ThreatAction,
    pub reason: String,
    pub confidence_bits: u64,
}

/// What the agent does about an IP.
#[derive(Debug, Clone, PartialEq, Eq)]
pub enum DefenseAction {
    BlockIp(String),
    Pass,
}

/// Why the model's text holds no verdict to decode.
#[derive(Debug, Clone, Copy, PartialEq, Eq, Structural)]
pub enum VerdictError {
    /// Nothing is left once reasoning, fences and whitespace are removed.
    EmptyVerdict,
}

/// The texts from which a verdict is decoded: first the cleaned answer as a
/// whole, then, if that is not a verdict, the first JSON object in it.
#[derive(Debug, Clone)]
pub struct VerdictCandidates {
    pub clean: String,
    pub fragment: Option<String>,
}

// ---------------------------------------------------------------- confidence

/// Bit pattern of `0.7_f64`, the confidence from which a BLOCK verdict is
/// carried out.
pub const CONFIDENCE_THRESHOLD_BITS: u64 = 0x3FE6666666666666u64;

/// Bit pattern of positive infinity; larger positive patterns are NaN.
pub const POSITIVE_INFINITY_BITS: u64 = 0x7FF0000000000000u64;

/// The double with bit pattern `bits` is a number no smaller than 0.7.
///
/// Doubles with the sign bit clear are ordered as their bit patterns; those
/// above the pattern of infinity are NaN, and those with the sign bit set are
/// negative (or -0.0), all below 0.7.
pub open spec fn confidence_meets_threshold(bits: u64) -> bool {
    CONFIDENCE_THRESHOLD_BITS <= bits <= POSITIVE_INFINITY_BITS
}

/// The defense a verdict calls for: block the IP when the model says BLOCK
/// with a confidence of at least 0.7, else let it pass.
pub open spec fn spec_defense(action: ThreatAction, confidence_bits: u64, ip: Seq<char>) -> Option<
    Seq<char>,
> {
    if action == ThreatAction::Block && confidence_meets_threshold(confidence_bits) {
        Some(ip)
    } else {
        None
    }
}

/// The IP a defense action blocks, if any.
pub open spec fn blocked_ip(d: DefenseAction) -> Option<Seq<char>> {
    match d {
        DefenseAction::BlockIp(ip) => Some(ip@),
        DefenseAction::Pass => None,
    }
}

/// Turns a verdict about `ip` into the defense it calls for.
pub fn build_defense_action(verdict: &ThreatVerdict, ip: &str) -> (d: DefenseAction)
    ensures
        blocked_ip(d) == spec_defense(verdict.action, verdict.confidence_bits, ip@),
{
    if verdict.action == ThreatAction::Block && CONFIDENCE_THRESHOLD_BITS <= verdict.confidence_bits
        && verdict.confidence_bits <= POSITIVE_INFINITY_BITS {
        DefenseAction::BlockIp(ip.to_owned())
    } else {
        DefenseAction::Pass
    }
}

// ---------------------------------------------------------------- JSON scanning

/// Brace depth, inside-a-string flag and pending-escape flag after scanning
/// some text from a neutral start: braces count outside strings only, and a
/// backslash inside a string escapes the next char.
pub open spec fn scan(s: Seq<char>) -> (int, bool, bool)
    decreases s.len(),
{
    if s.len() == 0 {
        (0, false, false)
    } else {
        scan_step(scan(s.drop_last()), s.last())
    }
}

pub open spec fn scan_step(st: (int, bool, bool), ch: char) -> (int, bool, bool) {
    let (depth, in_string, escaped) = st;
    if escaped {
        (depth, in_string, false)
    } else if ch == '\\' && in_string {
        (depth, in_string, true)
    } else if ch == '"' {
        (depth, !in_string, escaped)
    } else if in_string {
        st
    } else if ch == '{' {
        (depth + 1, in_string, escaped)
    } else if ch == '}' {
        (depth - 1, in_string, escaped)
    } else {
        st
    }
}

/// The char at `k` is a `}` outside any string that brings the brace depth
/// of `t` from one back to zero.
pub open spec fn closes_at(t: Seq<char>, k: int) -> bool {
    let (depth, in_string, escaped) = scan(t.take(k));
    0 <= k < t.len() && t[k] == '}' && !escaped && !in_string && depth == 1
}

/// The first index at or after `k` at which `t` closes.
pub open spec fn first_close_from(t: Seq<char>, k: int) -> Option<int>
    decreases t.len() - k,
{
    if k < 0 || k >= t.len() {
        None
    } else if closes_at(t, k) {
        Some(k)
    } else {
        first_close_from(t, k + 1)
    }
}

/// The first balanced JSON object in `s`: from the first `{` to the `}` that
/// closes it.
pub open spec fn spec_first_json_object(s: Seq<char>) -> Option<Seq<char>> {
    match first_occurrence(s, seq!['{']) {
        None => None,
        Some(start) => {
            let t = s.skip(start);
            match first_close_from(t, 0) {
                None => None,
                Some(k) => Some(t.take(k + 1)),
            }
        },
    }
}

/// The answer so far is one complete JSON object mentioning `"action"`:
/// once trimmed, it starts with `{`, contains `"action"`, its braces balance,
/// and it ends with `}`.
pub open spec fn spec_json_object_completed(text: Seq<char>) -> bool {
    let t = trim(text);
    &&& starts_with(t, seq!['{'])
    &&& contains_seq(t, "\"action\""@)
    &&& scan(t).0 == 0
    &&& ends_with(t, seq!['}'])
}

proof fn lemma_scan_push(s: Seq<char>, c: char)
    ensures
        scan(s.push(c)) == scan_step(scan(s), c),
{
    assert(s.push(c).drop_last() =~= s);
}

/// The first balanced JSON object in `input`, if any.
pub fn extract_first_json_object(input: &str) -> (r: Option<&str>)
    ensures
        match r {
            Some(f) => spec_first_json_object(input@) == Some(f@),
            None => spec_first_json_object(input@) is None,
        },
{
    let v = char_vec(input);
    let open = char_vec("{");
    proof {
        reveal_strlit("{");
        assert(open@ =~= seq!['{']);
    }
    let start = match find_vec(&v, &open) {
        Some(p) => p,
        None => {
            return None;
        },
    };
    proof {
        lemma_first_occurrence_from(v@, open@, 0);
    }
    let ghost t = v@.skip(start as int);
    let mut depth: usize = 0;
    let mut in_string = false;
    let mut escaped = false;
    let mut i = start;
    assert(t.take(0) =~= Seq::<char>::empty());
    while i < v.len()
        invariant
            start <= i <= v@.len(),
            t == v@.skip(start as int),
            v@ == input@,
            t[0] == '{',
            t.len() == v@.len() - start,
            scan(t.take(i - start)) == (depth as int, in_string, escaped),
            i > start ==> depth >= 1,
            depth <= i - start,
            first_close_from(t, 0) == first_close_from(t, i - start),
            spec_first_json_object(input@) == match first_close_from(t, 0) {
                None => None::<Seq<char>>,
                Some(k) => Some(t.take(k + 1)),
            },
        decreases v@.len() - i,
    {
        let ch = v[i];
        let ghost k = i - start;
        proof {
            assert(t.take(k + 1) =~= t.take(k).push(ch));
            lemma_scan_push(t.take(k), ch);
        }
        if escaped {
            escaped = false;
        } else if ch == '\\' && in_string {
            escaped = true;
        } else if ch == '"' {
            in_string = !in_string;
        } else if in_string {
        } else if ch == '{' {
            depth = depth + 1;
        } else if ch == '}' {
            if depth == 1 {
                assert(closes_at(t, k));
                let f = input.substring_char(start, i + 1);
                assert(f@ =~= t.take(k + 1));
                return Some(f);
            }
            depth = depth - 1;
        }
        proof {
            assert(!closes_at(t, k));
        }
        i = i + 1;
    }
    assert(first_close_from(t, i - start) is None);
    None
}

/// Whether the text generated so far is one complete JSON verdict object.
pub fn json_object_completed(text: &str) -> (r: bool)
    ensures
        r == spec_json_object_completed(text@),
{
    let trimmed = trim_str(text);
    let v = char_vec(trimmed);
    if !starts_with_str(&v, "{") || !contains_str(&v, "\"action\"") {
        proof {
            reveal_strlit("{");
            assert("{"@ =~= seq!['{']);
        }
        return false;
    }
    proof {
        reveal_strlit("{");
        assert("{"@ =~= seq!['{']);
    }
    let mut opens: usize = 0;
    let mut closes: usize = 0;
    let mut in_string = false;
    let mut escaped = false;
    let mut i: usize = 0;
    assert(v@.take(0) =~= Seq::<char>::empty());
    while i < v.len()
        invariant
            i <= v@.len(),
            opens <= i,
            closes <= i,
            scan(v@.take(i as int)) == (opens - closes, in_string, escaped),
        decreases v@.len() - i,
    {
        let ch = v[i];
        proof {
            assert(v@.take(i + 1) =~= v@.take(i as int).push(ch));
            lemma_scan_push(v@.take(i as int), ch);
        }
        if escaped {
            escaped = false;
        } else if ch == '\\' && in_string {
            escaped = true;
        } else if ch == '"' {
            in_string = !in_string;
        } else if in_string {
        } else if ch == '{' {
            opens = opens + 1;
        } else if ch == '}' {
            closes = closes + 1;
        }
        i = i + 1;
    }
    assert(v@.take(v@.len() as int) =~= v@);
    let r = opens == closes && ends_with_str(&v, "}");
    proof {
        reveal_strlit("}");
        assert("}"@ =~= seq!['}']);
    }
    r
}

proof fn lemma_first_close_from(t: Seq<char>, j: int)
    requires
        0 <= j,
    ensures
        first_close_from(t, j) matches Some(k) ==> j <= k && closes_at(t, k),
    decreases t.len() - j,
{
    if j < t.len() && !closes_at(t, j) {
        lemma_first_close_from(t, j + 1);
    }
}

/// Law: the JSON object taken from an answer is, when it mentions
/// `"action"`, one that the completeness test ending generation accepts; so
/// generation that stops on a complete object stops no earlier than the
/// object that verdict decoding falls back on.
pub proof fn law_extracted_object_is_complete(s: Seq<char>, f: Seq<char>)
    requires
        spec_first_json_object(s) == Some(f),
        contains_seq(f, "\"action\""@),
    ensures
        spec_json_object_completed(f),
{
    let start = first_occurrence(s, seq!['{']).unwrap();
    lemma_first_occurrence_from(s, seq!['{'], 0);
    let t = s.skip(start);
    let k = first_close_from(t, 0).unwrap();
    lemma_first_close_from(t, 0);
    assert(s.subrange(start, start + 1) =~= seq!['{']);
    assert(t[0] == s.subrange(start, start + 1)[0]);
    assert(f =~= t.take(k + 1));
    assert(f[0] == '{');
    assert(f.last() == '}');
    assert(trim_start(f) == f);
    assert(trim_end(f) == f);
    assert(f.drop_last() =~= t.take(k));
    assert(scan(f) == scan_step(scan(t.take(k)), '}'));
    assert(f.take(1) =~= seq!['{']);
    assert(f.skip(f.len() - 1) =~= seq!['}']);
}

/// From a point past the first char where the brace depth is at least one,
/// a text whose depth ends at zero or below closes somewhere ahead.
proof fn lemma_close_ahead(t: Seq<char>, j: int)
    requires
        0 <= j <= t.len(),
        scan(t.take(j)).0 >= 1,
        scan(t).0 <= 0,
    ensures
        first_close_from(t, j) is Some,
    decreases t.len() - j,
{
    if j == t.len() {
        assert(t.take(j) =~= t);
    } else if !closes_at(t, j) {
        assert(t.take(j + 1) =~= t.take(j).push(t[j]));
        lemma_scan_push(t.take(j), t[j]);
        lemma_close_ahead(t, j + 1);
    }
}

/// Law: an answer that the completeness test accepts always yields an
/// object: the first JSON object of the trimmed answer starts at its first
/// char and runs to a `}`.
pub proof fn law_completed_answer_yields_object(text: Seq<char>)
    requires
        spec_json_object_completed(text),
    ensures
        spec_first_json_object(trim(text)) is Some,
        spec_first_json_object(trim(text)) matches Some(f) ==> {
            &&& f.is_prefix_of(trim(text))
            &&& f.len() >= 2
            &&& f[0] == '{'
            &&& f.last() == '}'
        },
{
    let t = trim(text);
    assert(t.take(1) == seq!['{']);
    assert(t.subrange(0, 1) =~= t.take(1));
    assert(occurs_at(t, seq!['{'], 0));
    assert(first_occurrence(t, seq!['{']) == Some(0int));
    assert(t.skip(0) =~= t);
    assert(t[0] == '{');
    assert(t.take(1) =~= t.take(0).push(t[0]));
    assert(t.take(0) =~= Seq::<char>::empty());
    lemma_scan_push(t.take(0), t[0]);
    assert(scan(t.take(1)).0 == 1);
    lemma_close_ahead(t, 1);
    assert(!closes_at(t, 0));
    assert(first_close_from(t, 0) == first_close_from(t, 1));
    lemma_first_close_from(t, 1);
    let k = first_close_from(t, 1).unwrap();
    let f = t.take(k + 1);
    assert(spec_first_json_object(t) == Some(f));
    assert(f.is_prefix_of(t));
}

// ---------------------------------------------------------------- framing

/// `s` trimmed, and if it then opens with a Markdown code fence, the part
/// from its first `{` to its last `}` (when the first comes before the last).
pub open spec fn spec_strip_markdown_json_fence(input: Seq<char>) -> Seq<char> {
    let s = trim(input);
    if !starts_with(s, "```"@) {
        s
    } else {
        match (first_occurrence(s, seq!['{']), last_index_of(s, '}')) {
            (Some(start), Some(end)) => if start < end {
                s.subrange(start, end + 1)
            } else {
                s
            },
            _ => s,
        }
    }
}

/// `s` after the first `</think>` closing a reasoning block, with leading
/// whitespace removed; `s` itself when there is none.
pub open spec fn spec_strip_think_tags(s: Seq<char>) -> Seq<char> {
    match first_occurrence(s, "</think>"@) {
        Some(p) => trim_start(s.skip(p + "</think>"@.len())),
        None => s,
    }
}

/// The answer with reasoning, fences and surrounding whitespace removed.
pub open spec fn spec_clean_verdict(raw: Seq<char>) -> Seq<char> {
    trim(spec_strip_markdown_json_fence(spec_strip_think_tags(trim(raw))))
}

/// Removes a Markdown code fence around the JSON object.
pub fn strip_markdown_json_fence(input: &str) -> (r: &str)
    ensures
        r@ == spec_strip_markdown_json_fence(input@),
{
    let s = trim_str(input);
    let v = char_vec(s);
    if !starts_with_str(&v, "```") {
        return s;
    }
    let open = char_vec("{");
    proof {
        reveal_strlit("{");
        assert(open@ =~= seq!['{']);
    }
    match (find_vec(&v, &open), rfind_char(&v, '}')) {
        (Some(start), Some(end)) => {
            if start < end {
                proof {
                    lemma_first_occurrence_from(v@, open@, 0);
                    lemma_last_index_in_bounds(v@, '}');
                    assert(occurs_at(v@, open@, start as int));
                }
                assert(end < v.len());
                return s.substring_char(start, end + 1);
            }
        },
        _ => {},
    }
    s
}

proof fn lemma_last_index_in_bounds(s: Seq<char>, c: char)
    ensures
        last_index_of(s, c) matches Some(i) ==> 0 <= i < s.len() && s[i] == c,
    decreases s.len(),
{
    if s.len() > 0 && s.last() != c {
        lemma_last_index_in_bounds(s.drop_last(), c);
    }
}

/// Drops a reasoning block that ends with `</think>`.
pub fn strip_think_tags(input: &str) -> (r: &str)
    ensures
        r@ == spec_strip_think_tags(input@),
{
    let v = char_vec(input);
    let tag = char_vec("</think>");
    proof {
        reveal_strlit("</think>");
    }
    match find_vec(&v, &tag) {
        Some(p) => {
            proof {
                lemma_first_occurrence_from(v@, tag@, 0);
                assert(occurs_at(v@, tag@, p as int));
            }
            let n = tag.len();
            let len = v.len();
            assert(p + n <= len);
            let after = input.substring_char(p + n, len);
            assert(after@ =~= input@.skip(p + "</think>"@.len()));
            trim_start_str(after)
        },
        None => input,
    }
}

/// Frames the model's raw answer for decoding: the cleaned text, and the
/// first JSON object in it; fails when nothing is left after cleaning.
pub fn verdict_candidates(raw: &str) -> (r: Result<VerdictCandidates, VerdictError>)
    ensures
        match r {
            Ok(c) => {
                &&& spec_clean_verdict(raw@).len() > 0
                &&& c.clean@ == spec_clean_verdict(raw@)
                &&& match c.fragment {
                    Some(f) => spec_first_json_object(c.clean@) == Some(f@),
                    None => spec_first_json_object(c.clean@) is None,
                }
            },
            Err(e) => e == VerdictError::EmptyVerdict && spec_clean_verdict(raw@).len() == 0,
        },
{
    let trimmed = trim_str(raw);
    let without_think = strip_think_tags(trimmed);
    let without_fence = strip_markdown_json_fence(without_think);
    let clean = trim_str(without_fence);
    if clean.is_empty() {
        return Err(VerdictError::EmptyVerdict);
    }
    let fragment = match extract_first_json_object(clean) {
        Some(f) => Some(f.to_owned()),
        None => None,
    };
    Ok(VerdictCandidates { clean: clean.to_owned(), fragment })
}

} // verus!
