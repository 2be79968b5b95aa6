//! Settings: the default model path, where the model is downloaded from,
//! and how the inference settings read from the environment are parsed.
//!
//! | Variable | Default | Meaning |
//! |----------|---------|---------|
//! | `IPS_THREAT_MAX_NEW_TOKENS` | `4096` | Limit of new tokens per call |
//! | `IPS_THREAT_STOP_ON_JSON` | `1` | `0`/`false`: do not stop before the limit on a complete JSON |
//! | `IPS_THREAT_TEMPERATURE` | `0.4` | `0`: greedy; else temperature plus seeded sampling |
//! | `IPS_THREAT_SEED` | `42` | Seed of the sampler |
//! | `IPS_QUIET` | `0` | `1`/`true`: do not print the token stream |
//! | `IPS_MODEL_PATH` | [`DEFAULT_MODEL_PATH`] | Path of the GGUF model (relative to the working directory) |
use vstd::prelude::*;
use crate::text::{
    ascii_lower_code, char_vec, lowercases_to, parse_unsigned, parse_unsigned_str, trim, trim_str,
};

verus! {

/// Default model: Qwen2.5-Coder-3B, Q8_0 quantisation, under a short local name.
pub const DEFAULT_MODEL_PATH: &'static str = "models/qwen2.5-coder-3b-q80.gguf";

/// Where the default model is downloaded from.
pub const MODEL_DOWNLOAD_URL: &'static str = "https://huggingface.co/bartowski/Qwen2.5-Coder-3B-Instruct-GGUF/resolve/main/Qwen2.5-Coder-3B-Instruct-Q8_0.gguf";

/// The model to download and the file to save it as (the default model path).
pub fn resolve_model_download() -> (r: (&'static str, &'static str))
    ensures
        r.0@ == MODEL_DOWNLOAD_URL@,
        r.1@ == DEFAULT_MODEL_PATH@,
{
    (MODEL_DOWNLOAD_URL, DEFAULT_MODEL_PATH)
}

/// A yes/no setting: trimmed and lowercased, `0`, `false`, `no` and `off`
/// mean no, `1`, `true`, `yes` and `on` mean yes; anything else, or no
/// value at all, leaves the default.
pub open spec fn spec_bool_setting(value: Option<Seq<char>>, default: bool) -> bool {
    match value {
        None => default,
        Some(s) => {
            let t = trim(s);
            if lowercases_to(t, "0"@) || lowercases_to(t, "false"@) || lowercases_to(t, "no"@)
                || lowercases_to(t, "off"@) {
                false
            } else if lowercases_to(t, "1"@) || lowercases_to(t, "true"@) || lowercases_to(t, "yes"@)
                || lowercases_to(t, "on"@) {
                true
            } else {
                default
            }
        },
    }
}

/// A number setting: the value if it parses as an unsigned integer no
/// greater than `max`, else the default.
pub open spec fn spec_number_setting(value: Option<Seq<char>>, max: nat, default: nat) -> nat {
    match value {
        Some(s) => match parse_unsigned(s, max) {
            Some(n) => n,
            None => default,
        },
        None => default,
    }
}

fn lowercases_to_str(v: &Vec<char>, word: &str) -> (r: bool)
    ensures
        r == lowercases_to(v@, word@),
{
    let w = char_vec(word);
    if v.len() != w.len() {
        return false;
    }
    let mut i: usize = 0;
    while i < v.len()
        invariant
            i <= v@.len(),
            v@.len() == w@.len(),
            w@ == word@,
            forall|j: int| 0 <= j < i ==> ascii_lower_code(#[trigger] v@[j]) == w@[j] as u32,
        decreases v@.len() - i,
    {
        let u = v[i] as u32;
        let l = if 65 <= u && u <= 90 { u + 32 } else { u };
        if l != w[i] as u32 {
            return false;
        }
        i = i + 1;
    }
    true
}

/// Reads a yes/no setting (absent when `value` is `None`).
pub fn bool_setting(value: Option<&str>, default: bool) -> (r: bool)
    ensures
        r == spec_bool_setting(
            match value {
                Some(s) => Some(s@),
                None => None,
            },
            default,
        ),
{
    match value {
        None => default,
        Some(s) => {
            let t = char_vec(trim_str(s));
            if lowercases_to_str(&t, "0") || lowercases_to_str(&t, "false") || lowercases_to_str(
                &t,
                "no",
            ) || lowercases_to_str(&t, "off") {
                return false;
            }
            if lowercases_to_str(&t, "1") || lowercases_to_str(&t, "true") || lowercases_to_str(
                &t,
                "yes",
            ) || lowercases_to_str(&t, "on") {
                return true;
            }
            default
        },
    }
}

/// Reads a `usize` setting (absent when `value` is `None`).
pub fn usize_setting(value: Option<&str>, default: usize) -> (r: usize)
    ensures
        r == spec_number_setting(
            match value {
                Some(s) => Some(s@),
                None => None,
            },
            usize::MAX as nat,
            default as nat,
        ),
{
    match value {
        Some(s) => match parse_unsigned_str(s, usize::MAX as u64) {
            Some(n) => n as usize,
            None => default,
        },
        None => default,
    }
}

/// Reads a `u32` setting (absent when `value` is `None`).
pub fn u32_setting(value: Option<&str>, default: u32) -> (r: u32)
    ensures
        r == spec_number_setting(
            match value {
                Some(s) => Some(s@),
                None => None,
            },
            u32::MAX as nat,
            default as nat,
        ),
{
    match value {
        Some(s) => match parse_unsigned_str(s, u32::MAX as u64) {
            Some(n) => n as u32,
            None => default,
        },
        None => default,
    }
}

} // verus!
