//! nginx access-log lines: parsing the combined format, screening for
//! suspicious requests, and the compact summary handed to the model.
use vstd::prelude::*;
use vstd::utf8::is_ascii_chars;
use crate::text::{
    lemma_ascii_lowered_is_ascii, lemma_ascii_utf8_len, lemma_ascii_width,
    lemma_same_up_to_case_lowered, lemma_trim_keeps_ascii, lowercases_to, same_up_to_ascii_case,
    char_vec, contains_seq, contains_str, decimal, ends_with, ends_with_str, find_vec,
    first_occurrence, fitting_prefix, fitting_prefix_len, lemma_first_occurrence_from,
    lemma_utf8_len_add, lemma_utf8_len_single, occurs_at, parse_unsigned, parse_unsigned_str,
    push_decimal, str_eq, trim, trim_str, utf8_len, utf8_width, utf8_width_of,
};

verus! {

/// Longest User-Agent kept in a summary, in bytes.
pub const MAX_UA_LEN: usize = 80;

/// Longest Referer kept in a summary, in bytes.
pub const MAX_REFERER_LEN: usize = 60;

/// Longest header digest kept in a summary, in bytes.
pub const MAX_HDR_DIGEST_LEN: usize = 160;

/// The nginx `combined` format, optionally followed by one more quoted field
/// holding a digest of selected request headers (from a custom `log_format`,
/// such as `"$http_accept$http_accept_language"` or
/// `"Accept: …; Content-Type: …"`).
pub const NGINX_COMBINED_PATTERN: &'static str = "^(\\S+)\\s+\\S+\\s+\\S+\\s+\\[.*?\\]\\s+\"(GET|POST|PUT|DELETE|HEAD|OPTIONS|PATCH)\\s+(\\S+)\\s+HTTP/\\S+\"\\s+(\\d{3})\\s+\\d+\\s+\"([^\"]*)\"\\s+\"([^\"]*)\"(?:\\s+\"([^\"]*)\")?";

/// One request from the access log.
pub struct LogEvent {
    pub raw_line: String,
    pub ip: String,
    /// HTTP method of the request line (GET, POST, …).
    pub method: String,
    pub path: String,
    pub status: u16,
    pub user_agent: String,
    pub referer: String,
    /// Digest of headers from the last quoted field, when the log format has one.
    pub headers: String,
    pub content_type: String,
}

// ---------------------------------------------------------------- outside calls

/// Names what `str::to_lowercase` returns for a string: its lowercase form
/// under Unicode's `Lowercase` mapping, which may change the length of the
/// text in chars and in bytes.
pub uninterp spec fn lowercase_of(s: Seq<char>) -> Seq<char>;

/// `str::to_lowercase`. Claims that the result is the function
/// `lowercase_of` of the input, and that an all-ASCII input is lowercased
/// char by char, `A`–`Z` to `a`–`z` and every other char kept, as the
/// standard library documents; of other input it claims nothing more.
#[verifier::external_body]
fn to_lowercase(s: &str) -> (r: String)
    ensures
        r@ == lowercase_of(s@),
        is_ascii_chars(s@) ==> lowercases_to(s@, r@),
{
    s.to_lowercase()
}

/// Names the capture groups that the `regex` crate reports when the pattern
/// `pattern` is compiled and run on `haystack`: `None` when the pattern does
/// not compile or does not match; otherwise group 0 (the whole match) and
/// each group in the order of its opening parenthesis, `None` for a group
/// that took no part in the match.
pub uninterp spec fn regex_capture_groups(pattern: Seq<char>, haystack: Seq<char>) -> Option<
    Seq<Option<Seq<char>>>,
>;

/// The text of each group of a capture vector.
pub open spec fn groups_view(v: Vec<Option<String>>) -> Seq<Option<Seq<char>>> {
    v@.map_values(
        |g: Option<String>|
            match g {
                Some(s) => Some(s@),
                None => None,
            },
    )
}

/// `regex::Regex::new(pattern)` followed by `Regex::captures(line)`, with
/// each group's `Match` turned into its text. Claims only that the result is
/// `regex_capture_groups` of the two arguments.
#[verifier::external_body]
fn regex_captures(pattern: &str, line: &str) -> (r: Option<Vec<Option<String>>>)
    ensures
        match r {
            Some(v) => regex_capture_groups(pattern@, line@) == Some(groups_view(v)),
            None => regex_capture_groups(pattern@, line@) is None,
        },
{
    let re = regex::Regex::new(pattern).ok()?;
    let caps = re.captures(line)?;
    Some(caps.iter().map(|m| m.map(|m| m.as_str().to_owned())).collect())
}

// ---------------------------------------------------------------- truncation

/// The longest prefix of `s` whose UTF-8 encoding fits in `max_len` bytes:
/// `s` cut at the last char boundary at or before byte `max_len`.
pub open spec fn truncated(s: Seq<char>, max_len: int) -> Seq<char> {
    s.take(fitting_prefix_len(s, max_len) as int)
}

/// Cuts `ua` to at most `max_len` bytes without splitting a char.
pub fn truncate_ua(ua: &str, max_len: usize) -> (r: &str)
    ensures
        r@ == truncated(ua@, max_len as int),
{
    let v = char_vec(ua);
    let k = fitting_prefix(&v, max_len);
    proof {
        crate::text::lemma_fitting_prefix(v@, max_len as int);
    }
    ua.substring_char(0, k)
}

/// Law: a cut text is a prefix of the whole text, fits the byte budget, and is
/// as long as it can be; text that already fits is kept whole.
pub proof fn law_truncation(s: Seq<char>, max_len: nat)
    ensures
        truncated(s, max_len as int).is_prefix_of(s),
        utf8_len(truncated(s, max_len as int)) <= max_len,
        truncated(s, max_len as int).len() < s.len() ==> utf8_len(
            s.take((truncated(s, max_len as int).len() + 1) as int),
        ) > max_len,
        utf8_len(s) <= max_len ==> truncated(s, max_len as int) == s,
{
    crate::text::lemma_fitting_prefix(s, max_len as int);
    assert(s.take(s.len() as int) =~= s);
}

// ---------------------------------------------------------------- summary

/// `s` is worth showing: neither empty nor nginx's `-` placeholder.
pub open spec fn is_present(s: Seq<char>) -> bool {
    s.len() > 0 && s != "-"@
}

/// The compact line given to the model for an event: method, URI, status
/// and cut User-Agent, then the cut Referer and the header digest when present.
pub open spec fn spec_compact_summary(
    method: Seq<char>,
    path: Seq<char>,
    status: u16,
    user_agent: Seq<char>,
    referer: Seq<char>,
    headers: Seq<char>,
) -> Seq<char> {
    let head = method + " "@ + path + " "@ + decimal(status as nat) + " | UA: "@ + truncated(
        user_agent,
        MAX_UA_LEN as int,
    );
    let with_ref = if is_present(referer) {
        head + " | Ref: "@ + truncated(referer, MAX_REFERER_LEN as int)
    } else {
        head
    };
    if is_present(headers) {
        with_ref + " | H: "@ + truncated(headers, MAX_HDR_DIGEST_LEN as int)
    } else {
        with_ref
    }
}

fn is_present_str(s: &str) -> (r: bool)
    ensures
        r == is_present(s@),
{
    !s.is_empty() && !str_eq(s, "-")
}

impl LogEvent {
    /// Compact line for the model: method, URI, status and cut User-Agent,
    /// then Referer and header digest when present; keeps the evidence
    /// without inflating the context.
    pub fn compact_summary(&self) -> (r: String)
        ensures
            r@ == spec_compact_summary(
                self.method@,
                self.path@,
                self.status,
                self.user_agent@,
                self.referer@,
                self.headers@,
            ),
    {
        let ua_short = truncate_ua(self.user_agent.as_str(), MAX_UA_LEN);
        let mut parts = String::new();
        parts.append(self.method.as_str());
        parts.append(" ");
        parts.append(self.path.as_str());
        parts.append(" ");
        push_decimal(&mut parts, self.status as u64);
        parts.append(" | UA: ");
        parts.append(ua_short);
        let ghost head = parts@;
        if is_present_str(self.referer.as_str()) {
            parts.append(" | Ref: ");
            parts.append(truncate_ua(self.referer.as_str(), MAX_REFERER_LEN));
        }
        if is_present_str(self.headers.as_str()) {
            parts.append(" | H: ");
            parts.append(truncate_ua(self.headers.as_str(), MAX_HDR_DIGEST_LEN));
        }
        assert(parts@ =~= spec_compact_summary(
            self.method@,
            self.path@,
            self.status,
            self.user_agent@,
            self.referer@,
            self.headers@,
        ));
        parts
    }
}

/// Law: the summary begins with the method, the URI, the status and the
/// User-Agent label, and ends with the last field present, cut to its own
/// budget: the header digest to 160 bytes, else the Referer to 60 bytes,
/// else the User-Agent to 80 bytes. A field that fits its budget appears
/// whole.
pub proof fn law_summary_keeps_the_evidence(
    method: Seq<char>,
    path: Seq<char>,
    status: u16,
    user_agent: Seq<char>,
    referer: Seq<char>,
    headers: Seq<char>,
)
    ensures
        ({
            let s = spec_compact_summary(method, path, status, user_agent, referer, headers);
            let head = method + " "@ + path + " "@ + decimal(status as nat) + " | UA: "@;
            &&& head.is_prefix_of(s)
            &&& is_present(headers) ==> ends_with(s, " | H: "@ + truncated(headers, 160))
            &&& is_present(headers) && utf8_len(headers) <= 160 ==> ends_with(
                s,
                " | H: "@ + headers,
            )
            &&& !is_present(headers) && is_present(referer) ==> ends_with(
                s,
                " | Ref: "@ + truncated(referer, 60),
            )
            &&& !is_present(headers) && is_present(referer) && utf8_len(referer) <= 60
                ==> ends_with(s, " | Ref: "@ + referer)
            &&& !is_present(headers) && !is_present(referer) ==> s == head + truncated(
                user_agent,
                80,
            )
            &&& !is_present(headers) && !is_present(referer) && utf8_len(user_agent) <= 80 ==> s
                == head + user_agent
            &&& s == head + truncated(user_agent, 80) + (if referer.len() > 0 && referer != "-"@ {
                " | Ref: "@ + truncated(referer, 60)
            } else {
                Seq::<char>::empty()
            }) + (if headers.len() > 0 && headers != "-"@ {
                " | H: "@ + truncated(headers, 160)
            } else {
                Seq::<char>::empty()
            })
        }),
{
    let s = spec_compact_summary(method, path, status, user_agent, referer, headers);
    let head = method + " "@ + path + " "@ + decimal(status as nat) + " | UA: "@;
    law_truncation(user_agent, 80);
    law_truncation(referer, 60);
    law_truncation(headers, 160);
    let with_ua = head + truncated(user_agent, 80);
    assert(head.is_prefix_of(with_ua));
    let with_ref = if is_present(referer) {
        with_ua + " | Ref: "@ + truncated(referer, 60)
    } else {
        with_ua
    };
    assert(head.is_prefix_of(with_ref));
    assert(s =~= head + truncated(user_agent, 80) + (if is_present(referer) {
        " | Ref: "@ + truncated(referer, 60)
    } else {
        Seq::<char>::empty()
    }) + (if is_present(headers) {
        " | H: "@ + truncated(headers, 160)
    } else {
        Seq::<char>::empty()
    }));
    if is_present(headers) {
        let tail = " | H: "@ + truncated(headers, 160);
        assert(s =~= with_ref + tail);
        assert(s.skip(s.len() - tail.len()) =~= tail);
    } else if is_present(referer) {
        let tail = " | Ref: "@ + truncated(referer, 60);
        assert(s =~= with_ua + tail);
        assert(s.skip(s.len() - tail.len()) =~= tail);
    }
}

// ---------------------------------------------------------------- content type

/// The index of the char of `s` at which byte offset `b` of its UTF-8
/// encoding falls, when `b` is a char boundary.
pub open spec fn char_index_at_byte(s: Seq<char>, b: int) -> Option<int>
    decreases s.len(),
{
    if b == 0 {
        Some(0)
    } else if b < 0 || s.len() == 0 {
        None
    } else {
        match char_index_at_byte(s.drop_first(), b - utf8_width(s[0])) {
            Some(j) => Some(j + 1),
            None => None,
        }
    }
}

/// Byte offset just past the first `content-type:` in `lower`, the
/// lowercase form of a line (the offset is taken in the lowercase text and
/// used on the line itself).
pub open spec fn content_type_offset_in(lower: Seq<char>) -> Option<int> {
    match first_occurrence(lower, "content-type:"@) {
        Some(c) => Some((utf8_len(lower.take(c)) + 13) as int),
        None => None,
    }
}

/// Slicing `line` at the offset found in `lower` does not fail: the offset,
/// if any, falls on a char boundary of `line`.
pub open spec fn content_type_sliceable_given(line: Seq<char>, lower: Seq<char>) -> bool {
    match content_type_offset_in(lower) {
        Some(b) => char_index_at_byte(line, b) is Some,
        None => true,
    }
}

/// Slicing `line` for its content type does not fail. (Lowercasing may
/// change byte lengths, so this can fail for lines with such chars before
/// the header.)
pub open spec fn content_type_sliceable(line: Seq<char>) -> bool {
    content_type_sliceable_given(line, lowercase_of(line))
}

/// The `Content-Type` value of `line`, its header found in `lower`: the text
/// after `content-type:` up to the next `"`, or failing that the next `;`,
/// or the end, trimmed; empty when absent.
pub open spec fn content_type_given(line: Seq<char>, lower: Seq<char>) -> Seq<char> {
    match content_type_offset_in(lower) {
        None => seq![],
        Some(b) => match char_index_at_byte(line, b) {
            None => seq![],
            Some(j) => {
                let rest = line.skip(j);
                let end = match first_occurrence(rest, seq!['"']) {
                    Some(e) => e,
                    None => match first_occurrence(rest, seq![';']) {
                        Some(e) => e,
                        None => rest.len() as int,
                    },
                };
                trim(rest.take(end))
            },
        },
    }
}

/// The `Content-Type` value a custom log format may add to the line, its
/// header matched case-insensitively.
pub open spec fn spec_extract_content_type(line: Seq<char>) -> Seq<char> {
    content_type_given(line, lowercase_of(line))
}

/// UTF-8 length of the first `k` chars of `v`.
fn utf8_prefix_bytes(v: &Vec<char>, k: usize) -> (n: u128)
    requires
        k <= v@.len(),
    ensures
        n == utf8_len(v@.take(k as int)),
        n <= 4 * k,
{
    let mut n: u128 = 0;
    let mut i: usize = 0;
    assert(v@.take(0) =~= Seq::<char>::empty());
    while i < k
        invariant
            i <= k <= v@.len(),
            n == utf8_len(v@.take(i as int)),
            n <= 4 * i,
        decreases k - i,
    {
        let w = utf8_width_of(v[i]);
        proof {
            assert(v@.take(i + 1) =~= v@.take(i as int) + seq![v@[i as int]]);
            lemma_utf8_len_add(v@.take(i as int), seq![v@[i as int]]);
            lemma_utf8_len_single(v@[i as int]);
        }
        n = n + w as u128;
        i = i + 1;
    }
    n
}

pub open spec fn shift_index(o: Option<int>, by: int) -> Option<int> {
    match o {
        Some(j) => Some(j + by),
        None => None,
    }
}

/// The char index of `v` at byte offset `b`, when that is a char boundary.
fn char_index_at_byte_vec(v: &Vec<char>, b: u128) -> (r: Option<usize>)
    ensures
        match r {
            Some(j) => char_index_at_byte(v@, b as int) == Some(j as int),
            None => char_index_at_byte(v@, b as int) is None,
        },
{
    let mut i: usize = 0;
    let mut acc: u128 = 0;
    assert(v@.skip(0) =~= v@);
    while acc < b && i < v.len()
        invariant
            i <= v@.len(),
            acc <= 4 * i,
            char_index_at_byte(v@, b as int) == shift_index(
                char_index_at_byte(v@.skip(i as int), b - acc),
                i as int,
            ),
        decreases v@.len() - i,
    {
        let w = utf8_width_of(v[i]);
        proof {
            let s = v@.skip(i as int);
            assert(s.drop_first() =~= v@.skip(i + 1));
            assert(s[0] == v@[i as int]);
        }
        acc = acc + w as u128;
        i = i + 1;
    }
    if acc == b {
        Some(i)
    } else {
        proof {
            if i == v@.len() {
                assert(v@.skip(i as int).len() == 0);
            }
        }
        None
    }
}

/// Whether slicing `line` for its content type succeeds, its header looked
/// up in `lower`. It does for ASCII text lowercased char by char.
pub fn content_type_is_sliceable_lowered(line: &str, lower: &str) -> (r: bool)
    ensures
        r == content_type_sliceable_given(line@, lower@),
        is_ascii_chars(line@) && lowercases_to(line@, lower@) ==> r,
{
    let lv = char_vec(lower);
    let key = char_vec("content-type:");
    match find_vec(&lv, &key) {
        None => true,
        Some(c) => {
            proof {
                lemma_first_occurrence_from(lv@, key@, 0);
            }
            let b = utf8_prefix_bytes(&lv, c) + 13;
            let v = char_vec(line);
            proof {
                if is_ascii_chars(line@) && lowercases_to(line@, lower@) {
                    reveal_strlit("content-type:");
                    lemma_ascii_lowered_is_ascii(line@, lower@);
                    assert(is_ascii_chars(lower@.take(c as int)));
                    lemma_ascii_utf8_len(lower@.take(c as int));
                    lemma_ascii_char_index(line@, c + 13);
                }
            }
            char_index_at_byte_vec(&v, b).is_some()
        },
    }
}

/// Whether slicing for the content type succeeds on `line`; it does for
/// every ASCII line.
pub fn content_type_is_sliceable(line: &str) -> (r: bool)
    ensures
        r == content_type_sliceable(line@),
        is_ascii_chars(line@) ==> r,
{
    let lower = to_lowercase(line);
    content_type_is_sliceable_lowered(line, lower.as_str())
}

/// The `Content-Type` value in `line`, its header looked up in `lower`, or
/// empty.
pub fn extract_content_type_lowered(line: &str, lower: &str) -> (r: String)
    requires
        content_type_sliceable_given(line@, lower@),
    ensures
        r@ == content_type_given(line@, lower@),
{
    let lv = char_vec(lower);
    let key = char_vec("content-type:");
    match find_vec(&lv, &key) {
        None => String::new(),
        Some(c) => {
            proof {
                lemma_first_occurrence_from(lv@, key@, 0);
            }
            let b = utf8_prefix_bytes(&lv, c) + 13;
            let v = char_vec(line);
            match char_index_at_byte_vec(&v, b) {
                None => String::new(),
                Some(j) => {
                    proof {
                        lemma_char_index_in_bounds(v@, b as int);
                    }
                    let rest = line.substring_char(j, v.len());
                    let rv = char_vec(rest);
                    let quote = char_vec("\"");
                    let semi = char_vec(";");
                    proof {
                        reveal_strlit("\"");
                        reveal_strlit(";");
                        assert(quote@ =~= seq!['"']);
                        assert(semi@ =~= seq![';']);
                    }
                    let end = match find_vec(&rv, &quote) {
                        Some(e) => e,
                        None => match find_vec(&rv, &semi) {
                            Some(e) => e,
                            None => rv.len(),
                        },
                    };
                    proof {
                        lemma_first_occurrence_from(rv@, quote@, 0);
                        lemma_first_occurrence_from(rv@, semi@, 0);
                        if end < rv@.len() {
                        }
                        assert(rest@ =~= line@.skip(j as int));
                    }
                    trim_str(rest.substring_char(0, end)).to_owned()
                },
            }
        },
    }
}

/// The `Content-Type` value in `line`, or empty.
pub fn extract_content_type(line: &str) -> (r: String)
    requires
        content_type_sliceable(line@),
    ensures
        r@ == spec_extract_content_type(line@),
{
    let lower = to_lowercase(line);
    extract_content_type_lowered(line, lower.as_str())
}

/// In ASCII text every byte offset up to its length is a char boundary.
proof fn lemma_ascii_char_index(s: Seq<char>, b: int)
    requires
        is_ascii_chars(s),
        0 <= b <= s.len(),
    ensures
        char_index_at_byte(s, b) == Some(b),
    decreases s.len(),
{
    if b != 0 {
        lemma_ascii_width(s[0]);
        assert(is_ascii_chars(s.drop_first()));
        lemma_ascii_char_index(s.drop_first(), b - 1);
    }
}

proof fn lemma_char_index_in_bounds(s: Seq<char>, b: int)
    ensures
        char_index_at_byte(s, b) matches Some(j) ==> 0 <= j <= s.len(),
    decreases s.len(),
{
    if b != 0 && b >= 0 && s.len() > 0 {
        lemma_char_index_in_bounds(s.drop_first(), b - utf8_width(s[0]));
    }
}

// ---------------------------------------------------------------- parsing

/// Group `i` of a capture sequence, `None` past its end.
pub open spec fn group(c: Seq<Option<Seq<char>>>, i: int) -> Option<Seq<char>> {
    if 0 <= i < c.len() {
        c[i]
    } else {
        None
    }
}

/// Group `i`, or `default` when it took no part in the match.
pub open spec fn group_or(c: Seq<Option<Seq<char>>>, i: int, default: Seq<char>) -> Seq<char> {
    match group(c, i) {
        Some(g) => g,
        None => default,
    }
}

/// The capture groups hold the ip, method, path and a status that parses
/// as a `u16`.
pub open spec fn fields_present_in(c: Seq<Option<Seq<char>>>) -> bool {
    &&& group(c, 1) is Some
    &&& group(c, 2) is Some
    &&& group(c, 3) is Some
    &&& group(c, 4) is Some
    &&& parse_unsigned(group(c, 4)->Some_0, 0xFFFF) is Some
}

/// The pattern matches `line` with the ip, method, path and a status that
/// parses as a `u16`.
pub open spec fn log_line_fields_present(line: Seq<char>) -> bool {
    match regex_capture_groups(NGINX_COMBINED_PATTERN@, line) {
        None => false,
        Some(c) => fields_present_in(c),
    }
}

/// `ev` holds the fields of `line` as the groups `c` captured them: ip,
/// method, path, status; Referer and User-Agent (`-` when absent), the
/// header digest (empty when absent), and the `Content-Type` value, its
/// header looked up in `lower`.
pub open spec fn is_event_of_captures(
    ev: LogEvent,
    c: Seq<Option<Seq<char>>>,
    line: Seq<char>,
    lower: Seq<char>,
) -> bool {
    &&& ev.raw_line@ == line
    &&& ev.ip@ == group(c, 1)->Some_0
    &&& ev.method@ == group(c, 2)->Some_0
    &&& ev.path@ == group(c, 3)->Some_0
    &&& ev.status as nat == parse_unsigned(group(c, 4)->Some_0, 0xFFFF)->Some_0
    &&& ev.referer@ == group_or(c, 5, "-"@)
    &&& ev.user_agent@ == group_or(c, 6, "-"@)
    &&& ev.headers@ == group_or(c, 7, seq![])
    &&& ev.content_type@ == content_type_given(line, lower)
}

/// `ev` holds the fields of `line` as the combined pattern captures them.
pub open spec fn is_event_of_line(ev: LogEvent, line: Seq<char>) -> bool {
    is_event_of_captures(
        ev,
        regex_capture_groups(NGINX_COMBINED_PATTERN@, line)->Some_0,
        line,
        lowercase_of(line),
    )
}

fn group_text(caps: &Vec<Option<String>>, i: usize) -> (r: Option<String>)
    ensures
        match r {
            Some(s) => group(groups_view(*caps), i as int) == Some(s@),
            None => group(groups_view(*caps), i as int) is None,
        },
{
    if i >= caps.len() {
        return None;
    }
    match &caps[i] {
        Some(s) => Some(s.clone()),
        None => None,
    }
}

fn group_text_or(caps: &Vec<Option<String>>, i: usize, default: &str) -> (r: String)
    ensures
        r@ == group_or(groups_view(*caps), i as int, default@),
{
    match group_text(caps, i) {
        Some(s) => s,
        None => default.to_owned(),
    }
}

/// Whether the groups hold ip, method, path and a numeric status.
fn captures_have_fields(caps: &Vec<Option<String>>) -> (r: bool)
    ensures
        r == fields_present_in(groups_view(*caps)),
{
    match (group_text(caps, 1), group_text(caps, 2), group_text(caps, 3), group_text(caps, 4)) {
        (Some(_), Some(_), Some(_), Some(status)) => parse_unsigned_str(
            status.as_str(),
            0xFFFF,
        ).is_some(),
        _ => false,
    }
}

/// Builds the event of `line` from the groups the combined pattern captured
/// in it, with `lower` its lowercase form; `None` when a required group is
/// missing or the status is not a number.
pub fn event_from_captures(caps: &Vec<Option<String>>, line: &str, lower: &str) -> (r: Option<
    LogEvent,
>)
    requires
        fields_present_in(groups_view(*caps)) ==> content_type_sliceable_given(line@, lower@),
    ensures
        r is Some <==> fields_present_in(groups_view(*caps)),
        r matches Some(ev) ==> is_event_of_captures(ev, groups_view(*caps), line@, lower@),
{
    let ip = match group_text(caps, 1) {
        Some(s) => s,
        None => {
            return None;
        },
    };
    let method = match group_text(caps, 2) {
        Some(s) => s,
        None => {
            return None;
        },
    };
    let path = match group_text(caps, 3) {
        Some(s) => s,
        None => {
            return None;
        },
    };
    let status_text = match group_text(caps, 4) {
        Some(s) => s,
        None => {
            return None;
        },
    };
    let status = match parse_unsigned_str(status_text.as_str(), 0xFFFF) {
        Some(n) => n as u16,
        None => {
            return None;
        },
    };
    let referer = group_text_or(caps, 5, "-");
    let user_agent = group_text_or(caps, 6, "-");
    let headers = group_text_or(caps, 7, "");
    proof {
        reveal_strlit("");
        assert(""@ =~= Seq::<char>::empty());
    }
    let content_type = extract_content_type_lowered(line, lower);
    Some(
        LogEvent {
            raw_line: line.to_owned(),
            ip,
            method,
            path,
            status,
            user_agent,
            referer,
            headers,
            content_type,
        },
    )
}

/// Parses one access-log line in the combined format; `None` when it does
/// not match or its status is not a number.
pub fn parse_log_line(line: &str) -> (r: Option<LogEvent>)
    requires
        log_line_fields_present(line@) ==> content_type_sliceable(line@),
    ensures
        r is Some <==> log_line_fields_present(line@),
        r matches Some(ev) ==> is_event_of_line(ev, line@),
{
    let caps = match regex_captures(NGINX_COMBINED_PATTERN, line) {
        Some(c) => c,
        None => {
            return None;
        },
    };
    let lower = to_lowercase(line);
    event_from_captures(&caps, line, lower.as_str())
}

// ---------------------------------------------------------------- screening

/// The request is a plain static asset: status 200, a static-file extension,
/// and no injection marker in `p`, its lowercased path.
pub open spec fn static_ok_lowered(status: u16, p: Seq<char>) -> bool {
    let is_static = ends_with(p, ".js"@) || ends_with(p, ".css"@) || ends_with(p, ".png"@)
        || ends_with(p, ".jpg"@) || ends_with(p, ".gif"@) || ends_with(p, ".svg"@) || ends_with(
        p,
        ".ico"@,
    ) || ends_with(p, ".woff"@) || ends_with(p, ".woff2"@);
    let has_payload = contains_seq(p, "union"@) || contains_seq(p, "select"@) || contains_seq(
        p,
        "../"@,
    ) || contains_seq(p, "script"@);
    status == 200 && is_static && !has_payload
}

/// The request is a plain static asset, judged on its lowercased path.
pub open spec fn spec_is_static_ok(status: u16, path: Seq<char>) -> bool {
    static_ok_lowered(status, lowercase_of(path))
}

/// Statuses that mark a failed or refused request.
pub open spec fn is_bad_status(status: u16) -> bool {
    status == 400 || status == 401 || status == 403 || status == 404 || status == 500
}

/// SQL-injection markers in a lowercased path.
pub open spec fn has_sqli_marker(p: Seq<char>) -> bool {
    contains_seq(p, "union"@) || contains_seq(p, "select"@) || contains_seq(p, "drop"@)
        || contains_seq(p, "insert"@) || contains_seq(p, "1=1"@) || contains_seq(p, "or+1"@)
        || contains_seq(p, "%27"@) || contains_seq(p, "'"@)
}

/// Path-traversal and local-file-inclusion markers in a lowercased path.
pub open spec fn has_lfi_marker(p: Seq<char>) -> bool {
    contains_seq(p, "../"@) || contains_seq(p, "..%2f"@) || contains_seq(p, "etc/passwd"@)
        || contains_seq(p, "etc/shadow"@)
}

/// Cross-site-scripting markers in a lowercased path.
pub open spec fn has_xss_marker(p: Seq<char>) -> bool {
    contains_seq(p, "<script"@) || contains_seq(p, "%3cscript"@) || contains_seq(
        p,
        "javascript:"@,
    )
}

/// Names of attack tools in a lowercased User-Agent.
pub open spec fn has_scanner_marker(ua: Seq<char>) -> bool {
    contains_seq(ua, "sqlmap"@) || contains_seq(ua, "nikto"@) || contains_seq(ua, "nmap"@)
        || contains_seq(ua, "hydra"@) || contains_seq(ua, "dirbuster"@) || contains_seq(
        ua,
        "gobuster"@,
    ) || contains_seq(ua, "wfuzz"@) || contains_seq(ua, "masscan"@)
}

/// The request deserves the model's attention, judged on `p` and `u`, its
/// lowercased path and User-Agent: it is not a plain static asset, and it
/// failed, or its path carries an injection, traversal or XSS marker, or its
/// User-Agent names an attack tool.
pub open spec fn suspicious_lowered(status: u16, p: Seq<char>, u: Seq<char>) -> bool {
    !static_ok_lowered(status, p) && (is_bad_status(status) || has_sqli_marker(p)
        || has_lfi_marker(p) || has_xss_marker(p) || has_scanner_marker(u))
}

/// The request deserves the model's attention (markers matched on the
/// lowercased text).
pub open spec fn spec_is_suspicious(status: u16, path: Seq<char>, user_agent: Seq<char>) -> bool {
    suspicious_lowered(status, lowercase_of(path), lowercase_of(user_agent))
}

/// Whether a request with this status and lowercased path is a plain static
/// asset.
pub fn is_static_ok_lowered(status: u16, lower_path: &str) -> (r: bool)
    ensures
        r == static_ok_lowered(status, lower_path@),
{
    if status != 200 {
        return false;
    }
    let p = char_vec(lower_path);
    let is_static = ends_with_str(&p, ".js") || ends_with_str(&p, ".css") || ends_with_str(
        &p,
        ".png",
    ) || ends_with_str(&p, ".jpg") || ends_with_str(&p, ".gif") || ends_with_str(&p, ".svg")
        || ends_with_str(&p, ".ico") || ends_with_str(&p, ".woff") || ends_with_str(&p, ".woff2");
    let has_payload = contains_str(&p, "union") || contains_str(&p, "select") || contains_str(
        &p,
        "../",
    ) || contains_str(&p, "script");
    is_static && !has_payload
}

/// Whether the event is a plain static asset. An ASCII path is lowercased
/// char by char for the test.
pub fn is_static_ok(event: &LogEvent) -> (r: bool)
    ensures
        r == spec_is_static_ok(event.status, event.path@),
        is_ascii_chars(event.path@) ==> lowercases_to(event.path@, lowercase_of(event.path@)),
{
    let lower = to_lowercase(event.path.as_str());
    is_static_ok_lowered(event.status, lower.as_str())
}

/// Whether a request with this status, lowercased path and lowercased
/// User-Agent deserves the model's attention.
pub fn is_suspicious_lowered(status: u16, lower_path: &str, lower_ua: &str) -> (r: bool)
    ensures
        r == suspicious_lowered(status, lower_path@, lower_ua@),
{
    if is_static_ok_lowered(status, lower_path) {
        return false;
    }
    let s = status;
    let bad_status = s == 400 || s == 401 || s == 403 || s == 404 || s == 500;
    let p = char_vec(lower_path);
    let sqli_pattern = contains_str(&p, "union") || contains_str(&p, "select") || contains_str(
        &p,
        "drop",
    ) || contains_str(&p, "insert") || contains_str(&p, "1=1") || contains_str(&p, "or+1")
        || contains_str(&p, "%27") || contains_str(&p, "'");
    let lfi_pattern = contains_str(&p, "../") || contains_str(&p, "..%2f") || contains_str(
        &p,
        "etc/passwd",
    ) || contains_str(&p, "etc/shadow");
    let xss_pattern = contains_str(&p, "<script") || contains_str(&p, "%3cscript") || contains_str(
        &p,
        "javascript:",
    );
    let u = char_vec(lower_ua);
    let scanner_ua = contains_str(&u, "sqlmap") || contains_str(&u, "nikto") || contains_str(
        &u,
        "nmap",
    ) || contains_str(&u, "hydra") || contains_str(&u, "dirbuster") || contains_str(
        &u,
        "gobuster",
    ) || contains_str(&u, "wfuzz") || contains_str(&u, "masscan");
    bad_status || sqli_pattern || lfi_pattern || xss_pattern || scanner_ua
}

/// Whether the event deserves the model's attention. An ASCII path or
/// User-Agent is lowercased char by char for the test.
pub fn is_suspicious(event: &LogEvent) -> (r: bool)
    ensures
        r == spec_is_suspicious(event.status, event.path@, event.user_agent@),
        is_ascii_chars(event.path@) ==> lowercases_to(event.path@, lowercase_of(event.path@)),
        is_ascii_chars(event.user_agent@) ==> lowercases_to(
            event.user_agent@,
            lowercase_of(event.user_agent@),
        ),
{
    let lower_path = to_lowercase(event.path.as_str());
    let lower_ua = to_lowercase(event.user_agent.as_str());
    is_suspicious_lowered(event.status, lower_path.as_str(), lower_ua.as_str())
}

/// Law: a request is a plain static asset exactly when it was answered 200,
/// its lowercased path ends in `.js`, `.css`, `.png`, `.jpg`, `.gif`, `.svg`,
/// `.ico`, `.woff` or `.woff2`, and the path holds none of `union`,
/// `select`, `../` and `script`.
pub proof fn law_static_asset_rule(status: u16, p: Seq<char>)
    ensures
        static_ok_lowered(status, p) <==> {
            &&& status == 200
            &&& ends_with(p, ".js"@) || ends_with(p, ".css"@) || ends_with(p, ".png"@)
                || ends_with(p, ".jpg"@) || ends_with(p, ".gif"@) || ends_with(p, ".svg"@)
                || ends_with(p, ".ico"@) || ends_with(p, ".woff"@) || ends_with(p, ".woff2"@)
            &&& !contains_seq(p, "union"@)
            &&& !contains_seq(p, "select"@)
            &&& !contains_seq(p, "../"@)
            &&& !contains_seq(p, "script"@)
        },
{
}

/// Law: a request that is not a plain static asset is suspicious, whatever
/// else it holds, when it was answered 400, 401, 403, 404 or 500, when its
/// lowercased path holds any one of the injection, traversal or scripting
/// markers, or when its lowercased User-Agent names any one of the attack
/// tools.
pub proof fn law_each_marker_makes_a_request_suspicious(status: u16, p: Seq<char>, u: Seq<char>)
    requires
        !static_ok_lowered(status, p),
    ensures
        status == 400 ==> suspicious_lowered(status, p, u),
        status == 401 ==> suspicious_lowered(status, p, u),
        status == 403 ==> suspicious_lowered(status, p, u),
        status == 404 ==> suspicious_lowered(status, p, u),
        status == 500 ==> suspicious_lowered(status, p, u),
        contains_seq(p, "union"@) ==> suspicious_lowered(status, p, u),
        contains_seq(p, "select"@) ==> suspicious_lowered(status, p, u),
        contains_seq(p, "drop"@) ==> suspicious_lowered(status, p, u),
        contains_seq(p, "insert"@) ==> suspicious_lowered(status, p, u),
        contains_seq(p, "1=1"@) ==> suspicious_lowered(status, p, u),
        contains_seq(p, "or+1"@) ==> suspicious_lowered(status, p, u),
        contains_seq(p, "%27"@) ==> suspicious_lowered(status, p, u),
        contains_seq(p, "'"@) ==> suspicious_lowered(status, p, u),
        contains_seq(p, "../"@) ==> suspicious_lowered(status, p, u),
        contains_seq(p, "..%2f"@) ==> suspicious_lowered(status, p, u),
        contains_seq(p, "etc/passwd"@) ==> suspicious_lowered(status, p, u),
        contains_seq(p, "etc/shadow"@) ==> suspicious_lowered(status, p, u),
        contains_seq(p, "<script"@) ==> suspicious_lowered(status, p, u),
        contains_seq(p, "%3cscript"@) ==> suspicious_lowered(status, p, u),
        contains_seq(p, "javascript:"@) ==> suspicious_lowered(status, p, u),
        contains_seq(u, "sqlmap"@) ==> suspicious_lowered(status, p, u),
        contains_seq(u, "nikto"@) ==> suspicious_lowered(status, p, u),
        contains_seq(u, "nmap"@) ==> suspicious_lowered(status, p, u),
        contains_seq(u, "hydra"@) ==> suspicious_lowered(status, p, u),
        contains_seq(u, "dirbuster"@) ==> suspicious_lowered(status, p, u),
        contains_seq(u, "gobuster"@) ==> suspicious_lowered(status, p, u),
        contains_seq(u, "wfuzz"@) ==> suspicious_lowered(status, p, u),
        contains_seq(u, "masscan"@) ==> suspicious_lowered(status, p, u),
{
}

/// Law: nothing else makes a request suspicious: a plain static asset never
/// is, and neither is a request with another status whose path and
/// User-Agent hold none of the markers.
pub proof fn law_only_markers_make_a_request_suspicious(status: u16, p: Seq<char>, u: Seq<char>)
    requires
        static_ok_lowered(status, p) || {
            &&& status != 400 && status != 401 && status != 403 && status != 404 && status != 500
            &&& !contains_seq(p, "union"@) && !contains_seq(p, "select"@) && !contains_seq(
                p,
                "drop"@,
            ) && !contains_seq(p, "insert"@) && !contains_seq(p, "1=1"@) && !contains_seq(
                p,
                "or+1"@,
            ) && !contains_seq(p, "%27"@) && !contains_seq(p, "'"@)
            &&& !contains_seq(p, "../"@) && !contains_seq(p, "..%2f"@) && !contains_seq(
                p,
                "etc/passwd"@,
            ) && !contains_seq(p, "etc/shadow"@)
            &&& !contains_seq(p, "<script"@) && !contains_seq(p, "%3cscript"@) && !contains_seq(
                p,
                "javascript:"@,
            )
            &&& !contains_seq(u, "sqlmap"@) && !contains_seq(u, "nikto"@) && !contains_seq(
                u,
                "nmap"@,
            ) && !contains_seq(u, "hydra"@) && !contains_seq(u, "dirbuster"@) && !contains_seq(
                u,
                "gobuster"@,
            ) && !contains_seq(u, "wfuzz"@) && !contains_seq(u, "masscan"@)
        },
    ensures
        !suspicious_lowered(status, p, u),
{
}

/// Law: for ASCII paths and User-Agents, which `str::to_lowercase` lowercases
/// char by char (as `is_static_ok` and `is_suspicious` report), changing the
/// case of their letters changes neither the static-asset test nor the
/// screening.
pub proof fn law_ascii_case_does_not_change_screening(
    status: u16,
    path1: Seq<char>,
    path2: Seq<char>,
    ua1: Seq<char>,
    ua2: Seq<char>,
)
    requires
        lowercases_to(path1, lowercase_of(path1)),
        lowercases_to(path2, lowercase_of(path2)),
        lowercases_to(ua1, lowercase_of(ua1)),
        lowercases_to(ua2, lowercase_of(ua2)),
        same_up_to_ascii_case(path1, path2),
        same_up_to_ascii_case(ua1, ua2),
    ensures
        spec_is_static_ok(status, path1) == spec_is_static_ok(status, path2),
        spec_is_suspicious(status, path1, ua1) == spec_is_suspicious(status, path2, ua2),
{
    lemma_same_up_to_case_lowered(path1, path2, lowercase_of(path1), lowercase_of(path2));
    lemma_same_up_to_case_lowered(ua1, ua2, lowercase_of(ua1), lowercase_of(ua2));
}

/// Law: a plain static asset is never suspicious, whatever its User-Agent.
pub proof fn law_static_assets_are_not_suspicious(status: u16, path: Seq<char>, user_agent: Seq<char>)
    requires
        spec_is_static_ok(status, path),
    ensures
        !spec_is_suspicious(status, path, user_agent),
{
}

/// Law: a request answered 400, 401, 403, 404 or 500 is always suspicious,
/// whatever its path and User-Agent.
pub proof fn law_failed_requests_are_suspicious(status: u16, path: Seq<char>, user_agent: Seq<char>)
    requires
        is_bad_status(status),
    ensures
        spec_is_suspicious(status, path, user_agent),
{
}

/// A log line that cannot be handled: the `Content-Type` lookup would cut
/// it inside a char.
#[derive(Debug, Clone, Copy, PartialEq, Eq, Structural)]
pub enum LineError {
    ContentTypeOffset,
}

/// What the log follower does with one line read from the file: nothing
/// for a blank line, a line that does not parse or an ordinary request; the
/// event, for a suspicious request. Only a line with non-ASCII text can
/// fail.
pub fn screen_log_line(line: &str) -> (r: Result<Option<LogEvent>, LineError>)
    ensures
        match r {
            Err(_) => {
                &&& trim(line@).len() > 0
                &&& log_line_fields_present(trim(line@))
                &&& !content_type_sliceable(trim(line@))
            },
            Ok(None) => trim(line@).len() == 0 || !log_line_fields_present(trim(line@)) || {
                &&& content_type_sliceable(trim(line@))
                &&& exists|ev: LogEvent|
                    is_event_of_line(ev, trim(line@)) && !spec_is_suspicious(
                        ev.status,
                        ev.path@,
                        ev.user_agent@,
                    )
            },
            Ok(Some(ev)) => {
                &&& trim(line@).len() > 0
                &&& is_event_of_line(ev, trim(line@))
                &&& spec_is_suspicious(ev.status, ev.path@, ev.user_agent@)
            },
        },
        is_ascii_chars(line@) ==> r is Ok,
{
    let trimmed = trim_str(line);
    if trimmed.is_empty() {
        return Ok(None);
    }
    proof {
        if is_ascii_chars(line@) {
            lemma_trim_keeps_ascii(line@);
        }
    }
    if !content_type_is_sliceable(trimmed) {
        match parse_log_line_fields_only(trimmed) {
            true => {
                return Err(LineError::ContentTypeOffset);
            },
            false => {
                return Ok(None);
            },
        }
    }
    match parse_log_line(trimmed) {
        None => Ok(None),
        Some(event) => {
            if is_suspicious(&event) {
                Ok(Some(event))
            } else {
                Ok(None)
            }
        },
    }
}

/// Whether the combined pattern yields ip, method, path and a numeric status.
fn parse_log_line_fields_only(line: &str) -> (r: bool)
    ensures
        r == log_line_fields_present(line@),
{
    match regex_captures(NGINX_COMBINED_PATTERN, line) {
        Some(caps) => captures_have_fields(&caps),
        None => false,
    }
}

} // verus!
