//! The model side of the agent: the prompt for a threat analysis, the
//! bookkeeping of token generation, and the agent's description.
use vstd::prelude::*;
use crate::memory::strings_view;
use crate::parser::{json_object_completed, spec_json_object_completed};
use crate::text::{decimal, push_decimal, trim, trim_str};

verus! {

/// Opening of the threat-analysis prompt (ChatML: system message with the
/// threat model, decision policy and output contract; then the user message
/// up to the IP).
pub const PROMPT_HEAD: &'static str = "<|im_start|>system\n\
You are the reasoning core of a host-based IPS that runs entirely on-premises (local LLM, no cloud). \
Your job is to classify a short window of HTTP access-log lines for ONE client IP and decide whether automated defense should block that IP.\n\
\n\
Threat model (non-exhaustive; ground every judgment in the provided log substrings):\n\
- Reconnaissance and vulnerability scanning: security tools, directory brute force, tech fingerprinting.\n\
- Injection and traversal: SQLi, XSS, command injection, path traversal, LFI/RFI, SSRF to metadata or loopback.\n\
- Credential attacks: repeated 401/403 on the same path or auth endpoints.\n\
- Bots and non-browser clients that mimic attacks (custom HTTP libs, scripting UAs) unless clearly benign crawlers with consistent behavior.\n\
\n\
Decision policy:\n\
- Prefer BLOCK when there is clear abuse or tooling consistent with attack tools, or strong injection/traversal patterns in path/query/UA.\n\
- Prefer PASS for plausible human browsers or benign crawlers without suspicious payloads or tool UAs.\n\
- When uncertain, lower confidence; use PASS if evidence is weak and could be a false positive.\n\
- If UA rotation metadata is present, weigh mixed tool/non-browser UAs toward BLOCK.\n\
\n\
Output contract — reply with exactly ONE JSON object, single line, valid UTF-8, no markdown, no code fences, no keys other than these three:\n\
{\"action\":\"BLOCK\"|\"PASS\",\"reason\":\"brief explanation (1–3 short sentences), MUST quote or paraphrase concrete substrings/status/paths from the log\",\"confidence\":0.0}\n\
confidence is a float from 0.0 to 1.0 reflecting how well the log supports the decision.\n\
Do not output any text before or after the JSON object.\n\
<|im_end|>\n\
<|im_start|>user\n\
Below are access-log lines for a single IP (and optional UA-rotation note). Apply the system instructions.\n\
\n\
Concrete heuristics to apply against the log text (do not copy this list into \"reason\" verbatim — cite the log instead):\n\
- BLOCK if any \"UA:\" matches (case-insensitive) tool patterns such as: sqlmap, nikto, nmap, hydra, gobuster, wfuzz, masscan, python-requests, curl, wget, Go-http-client, or similar.\n\
- BLOCK if path or query contains obvious injection/traversal tokens: UNION, SELECT, DROP, ../, etc/passwd, <script, onerror, javascript:, ;cat, |whoami, 169.254.169.254, 127.0.0.1, localhost in suspicious context, etc.\n\
- BLOCK if the same path accumulates many 401 or 403 responses (credential stuffing / brute force).\n\
- If UA rotation is noted and User-Agents mix scanners/tools with odd clients, lean toward BLOCK with explicit justification.\n\
- PASS only if the window looks like normal browsing (major browsers) or clearly benign bot behavior without the above.\n\
\n\
IP: ";

/// Between the IP (and rotation note) and the log lines.
pub const PROMPT_LOG_HEADER: &'static str = "\n\
--- log (newest context in this window) ---\n\
";

/// After the log lines: closes the user message and opens the answer.
pub const PROMPT_TAIL: &'static str = "\n\
<|im_end|>\n\
<|im_start|>assistant\n";

/// Opening of the note on User-Agent rotation.
pub const UA_ROTATION_NOTE_HEAD: &'static str = "\n[Metadata] UA rotation: ";

/// End of the note on User-Agent rotation.
pub const UA_ROTATION_NOTE_TAIL: &'static str = " distinct User-Agent strings for this IP — treat as elevated risk if tool-like or mixed fingerprints.";

/// What a model that is not loaded is described as.
pub const NOT_LOADED: &'static str = "не загружена";

/// Tokens generated for one threat analysis at most.
pub const THREAT_MAX_NEW_TOKENS: usize = 512;

/// Least context size of the model, in tokens.
pub const MIN_CONTEXT_TOKENS: u32 = 8192;

/// The lines of `lines` joined with newlines.
pub open spec fn join_lines(lines: Seq<Seq<char>>) -> Seq<char>
    decreases lines.len(),
{
    if lines.len() == 0 {
        seq![]
    } else if lines.len() == 1 {
        lines[0]
    } else {
        join_lines(lines.drop_last()) + seq!['\n'] + lines.last()
    }
}

/// The number of chars in all of `lines` together.
pub open spec fn total_len(lines: Seq<Seq<char>>) -> nat
    decreases lines.len(),
{
    if lines.len() == 0 {
        0
    } else {
        total_len(lines.drop_last()) + lines.last().len()
    }
}

/// Law: the log section keeps every event, in order, with exactly one
/// newline between neighbours: no events give an empty section, one event
/// stands alone, and each further event adds a newline and itself, even
/// when it repeats the one before. So the section is as long as all the
/// events together plus one char per gap.
pub proof fn law_log_section_keeps_every_event(lines: Seq<Seq<char>>, x: Seq<char>)
    ensures
        join_lines(Seq::<Seq<char>>::empty()) == Seq::<char>::empty(),
        join_lines(seq![x]) == x,
        lines.len() > 0 ==> join_lines(lines.push(x)) == join_lines(lines) + seq!['\n'] + x,
        lines.len() > 0 ==> join_lines(lines).len() == total_len(lines) + lines.len() - 1,
    decreases lines.len(),
{
    assert(lines.push(x).drop_last() =~= lines);
    if lines.len() > 1 {
        law_log_section_keeps_every_event(lines.drop_last(), lines.last());
    }
}

/// The note on User-Agent rotation: present only when rotation was seen.
pub open spec fn ua_rotation_note(ua_rotation: bool, unique_ua_count: nat) -> Seq<char> {
    if ua_rotation {
        UA_ROTATION_NOTE_HEAD@ + decimal(unique_ua_count) + UA_ROTATION_NOTE_TAIL@
    } else {
        seq![]
    }
}

/// The prompt asking the model for a verdict on `ip` given its recent events.
pub open spec fn spec_threat_prompt(
    ip: Seq<char>,
    events: Seq<Seq<char>>,
    ua_rotation: bool,
    unique_ua_count: nat,
) -> Seq<char> {
    PROMPT_HEAD@ + ip + ua_rotation_note(ua_rotation, unique_ua_count) + PROMPT_LOG_HEADER@
        + join_lines(events) + PROMPT_TAIL@
}

/// Appends the lines of `lines`, joined with newlines, to `out`.
fn push_joined_lines(out: &mut String, lines: &[String])
    ensures
        final(out)@ == old(out)@ + join_lines(strings_view(lines@)),
{
    let ghost start = out@;
    let mut i: usize = 0;
    assert(strings_view(lines@).take(0) =~= Seq::<Seq<char>>::empty());
    while i < lines.len()
        invariant
            i <= lines@.len(),
            out@ == start + join_lines(strings_view(lines@).take(i as int)),
        decreases lines@.len() - i,
    {
        let ghost prefix = strings_view(lines@).take(i as int);
        let ghost next = strings_view(lines@).take(i + 1);
        assert(next.drop_last() =~= prefix);
        assert(next.last() == lines@[i as int]@);
        if i > 0 {
            out.append("\n");
            proof {
                reveal_strlit("\n");
            }
            assert("\n"@ =~= seq!['\n']);
        } else {
            assert(prefix.len() == 0);
            assert(next =~= seq![lines@[0]@]);
        }
        out.append(lines[i].as_str());
        assert(out@ =~= start + join_lines(next));
        i = i + 1;
    }
    assert(strings_view(lines@).take(i as int) =~= strings_view(lines@));
}

/// Few-shot threat analysis prompt: the history of suspicious events of one
/// IP (with User-Agent and Referer) and the User-Agent rotation metadata,
/// asking for `{"action":"BLOCK"|"PASS","reason":"...","confidence":0.0-1.0}`.
pub fn threat_prompt(ip: &str, events: &[String], ua_rotation: bool, unique_ua_count: usize) -> (r:
    String)
    ensures
        r@ == spec_threat_prompt(ip@, strings_view(events@), ua_rotation, unique_ua_count as nat),
{
    let mut p = String::new();
    p.append(PROMPT_HEAD);
    p.append(ip);
    if ua_rotation {
        p.append(UA_ROTATION_NOTE_HEAD);
        push_decimal(&mut p, unique_ua_count as u64);
        p.append(UA_ROTATION_NOTE_TAIL);
    }
    p.append(PROMPT_LOG_HEADER);
    push_joined_lines(&mut p, events);
    p.append(PROMPT_TAIL);
    assert(p@ =~= spec_threat_prompt(ip@, strings_view(events@), ua_rotation, unique_ua_count as nat));
    p
}

/// How the agent describes itself: its name and the model it has loaded.
pub open spec fn spec_describe_agent(name: Seq<char>, model_path: Option<Seq<char>>) -> Seq<char> {
    "Агент: "@ + name + ", модель: "@ + match model_path {
        Some(p) => p,
        None => NOT_LOADED@,
    }
}

/// The agent's description.
pub fn describe_agent(name: &str, model_path: Option<&str>) -> (r: String)
    ensures
        r@ == spec_describe_agent(
            name@,
            match model_path {
                Some(p) => Some(p@),
                None => None,
            },
        ),
{
    let mut d = String::new();
    d.append("Агент: ");
    d.append(name);
    d.append(", модель: ");
    match model_path {
        Some(p) => d.append(p),
        None => d.append(NOT_LOADED),
    }
    assert(d@ =~= spec_describe_agent(
        name@,
        match model_path {
            Some(p) => Some(p@),
            None => None,
        },
    ));
    d
}

/// Context size for a prompt of `prompt_tokens` tokens and `max_gen` new
/// ones: their sum as `u32`s, and no less than the least context size.
pub open spec fn spec_context_size(prompt_tokens: usize, max_gen: usize) -> u32 {
    let n = ((prompt_tokens as u32) + (max_gen as u32)) as u32;
    if n >= MIN_CONTEXT_TOKENS {
        n
    } else {
        MIN_CONTEXT_TOKENS
    }
}

/// The context size to create for a generation.
pub fn context_size(prompt_tokens: usize, max_gen: usize) -> (r: u32)
    requires
        (prompt_tokens as u32) + (max_gen as u32) <= u32::MAX,
    ensures
        r == spec_context_size(prompt_tokens, max_gen),
{
    #[verifier::truncate]
    let a = prompt_tokens as u32;
    #[verifier::truncate]
    let b = max_gen as u32;
    let n = a + b;
    if n >= MIN_CONTEXT_TOKENS {
        n
    } else {
        MIN_CONTEXT_TOKENS
    }
}

/// The state of a token-by-token generation: the text so far, how many
/// tokens were taken, the limit, whether to stop at a complete JSON verdict,
/// and whether generation has ended.
pub struct GenerationState {
    answer: String,
    generated: usize,
    max_gen: usize,
    stop_on_json: bool,
    finished: bool,
}

impl GenerationState {
    pub closed spec fn answer_so_far(&self) -> Seq<char> {
        self.answer@
    }

    pub closed spec fn generated(&self) -> nat {
        self.generated as nat
    }

    pub closed spec fn limit(&self) -> nat {
        self.max_gen as nat
    }

    pub closed spec fn stops_on_json(&self) -> bool {
        self.stop_on_json
    }

    pub closed spec fn is_finished(&self) -> bool {
        self.finished
    }

    /// No more than the limit of tokens is ever taken.
    pub closed spec fn wf(&self) -> bool {
        self.generated <= self.max_gen
    }

    /// A generation of at most `max_gen` tokens that has produced nothing yet.
    pub fn new(max_gen: usize, stop_on_json: bool) -> (g: GenerationState)
        ensures
            g.wf(),
            g.answer_so_far() == Seq::<char>::empty(),
            g.generated() == 0,
            g.limit() == max_gen,
            g.stops_on_json() == stop_on_json,
            !g.is_finished(),
    {
        GenerationState { answer: String::new(), generated: 0, max_gen, stop_on_json, finished: false }
    }

    /// Whether the next token should be sampled and handed in.
    pub fn wants_token(&self) -> (r: bool)
        ensures
            r == (!self.is_finished() && self.generated() < self.limit()),
    {
        !self.finished && self.generated < self.max_gen
    }

    /// The model produced its end-of-generation token.
    pub fn end_of_generation(&mut self)
        ensures
            final(self).is_finished(),
            final(self).answer_so_far() == old(self).answer_so_far(),
            final(self).generated() == old(self).generated(),
            final(self).limit() == old(self).limit(),
            final(self).stops_on_json() == old(self).stops_on_json(),
            old(self).wf() ==> final(self).wf(),
    {
        self.finished = true;
    }

    /// Takes the text of the next token. Generation ends here when stopping
    /// on JSON and the answer is now a complete verdict object; otherwise
    /// the token counts against the limit. Returns whether generation ended.
    pub fn accept_piece(&mut self, piece: &str) -> (stop: bool)
        requires
            old(self).wf(),
            !old(self).is_finished(),
            old(self).generated() < old(self).limit(),
        ensures
            final(self).wf(),
            final(self).answer_so_far() == old(self).answer_so_far() + piece@,
            final(self).limit() == old(self).limit(),
            final(self).stops_on_json() == old(self).stops_on_json(),
            stop == (old(self).stops_on_json() && spec_json_object_completed(
                final(self).answer_so_far(),
            )),
            stop ==> final(self).is_finished() && final(self).generated() == old(self).generated(),
            !stop ==> !final(self).is_finished() && final(self).generated() == old(self).generated()
                + 1,
    {
        self.answer.append(piece);
        if self.stop_on_json && json_object_completed(self.answer.as_str()) {
            self.finished = true;
            return true;
        }
        self.generated = self.generated + 1;
        false
    }

    /// Number of tokens taken so far.
    pub fn tokens_taken(&self) -> (n: usize)
        ensures
            n == self.generated(),
    {
        self.generated
    }

    /// The answer, trimmed.
    pub fn final_answer(&self) -> (r: String)
        ensures
            r@ == trim(self.answer_so_far()),
    {
        trim_str(self.answer.as_str()).to_owned()
    }
}

} // verus!
