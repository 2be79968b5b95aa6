//! Command-line options of the agent and of the benchmark, read from the
//! argument list (program name first) and, for the model path, from the
//! `IPS_MODEL_PATH` variable.
use vstd::prelude::*;
use crate::config::DEFAULT_MODEL_PATH;
use crate::memory::strings_view;
use crate::text::{char_vec, parse_unsigned, parse_unsigned_str, starts_with, starts_with_str, str_eq};

verus! {

/// The log file watched when `--log` is not given.
pub const DEFAULT_LOG_PATH: &'static str = "/var/log/nginx/access.log";

/// Events per IP that trigger analysis when `--window` is not given.
pub const DEFAULT_WINDOW_SIZE: usize = 5;

/// Seconds an IP stays blocked when `--block-duration` is not given.
pub const DEFAULT_BLOCK_DURATION_SECS: u64 = 600;

/// Least milliseconds between two analyses when `--rate-limit` is not given.
pub const DEFAULT_RATE_LIMIT_MS: u64 = 500;

/// The first index at or after `from` of an argument equal to `flag`.
pub open spec fn first_position_from(args: Seq<Seq<char>>, flag: Seq<char>, from: int) -> Option<
    int,
>
    decreases args.len() - from,
{
    if from < 0 || from >= args.len() {
        None
    } else if args[from] == flag {
        Some(from)
    } else {
        first_position_from(args, flag, from + 1)
    }
}

/// The argument after the first occurrence of `flag`, if both exist.
pub open spec fn spec_flag_value(args: Seq<Seq<char>>, flag: Seq<char>) -> Option<Seq<char>> {
    match first_position_from(args, flag, 0) {
        Some(i) => if i + 1 < args.len() {
            Some(args[i + 1])
        } else {
            None
        },
        None => None,
    }
}

/// The value of a numeric option: the argument after `flag` if it parses as
/// an unsigned integer no greater than `max`; the default when it does not
/// parse, when it is missing, or when `flag` is absent.
pub open spec fn spec_number_option(args: Seq<Seq<char>>, flag: Seq<char>, max: nat, default: nat) -> nat {
    match spec_flag_value(args, flag) {
        Some(v) => match parse_unsigned(v, max) {
            Some(n) => n,
            None => default,
        },
        None => default,
    }
}

proof fn lemma_first_position(args: Seq<Seq<char>>, flag: Seq<char>, from: int)
    requires
        0 <= from,
    ensures
        match first_position_from(args, flag, from) {
            Some(i) => from <= i < args.len() && args[i] == flag,
            None => forall|j: int| from <= j < args.len() ==> args[j] != flag,
        },
    decreases args.len() - from,
{
    if from < args.len() && args[from] != flag {
        lemma_first_position(args, flag, from + 1);
    }
}

/// The index of the first argument equal to `flag`.
fn position_of(args: &Vec<String>, flag: &str) -> (r: Option<usize>)
    ensures
        match r {
            Some(i) => first_position_from(strings_view(args@), flag@, 0) == Some(i as int),
            None => first_position_from(strings_view(args@), flag@, 0) is None,
        },
{
    let ghost a = strings_view(args@);
    let mut i: usize = 0;
    while i < args.len()
        invariant
            i <= args@.len(),
            a == strings_view(args@),
            first_position_from(a, flag@, 0) == first_position_from(a, flag@, i as int),
        decreases args@.len() - i,
    {
        if str_eq(args[i].as_str(), flag) {
            return Some(i);
        }
        i = i + 1;
    }
    None
}

/// Whether `flag` is among the arguments.
pub fn has_flag(args: &Vec<String>, flag: &str) -> (r: bool)
    ensures
        r == strings_view(args@).contains(flag@),
{
    let p = position_of(args, flag);
    proof {
        lemma_first_position(strings_view(args@), flag@, 0);
        if strings_view(args@).contains(flag@) {
            let j = choose|j: int| 0 <= j < args@.len() && strings_view(args@)[j] == flag@;
        }
    }
    p.is_some()
}

/// The argument that follows `flag`, if any.
pub fn flag_value(args: &Vec<String>, flag: &str) -> (r: Option<String>)
    ensures
        match r {
            Some(v) => spec_flag_value(strings_view(args@), flag@) == Some(v@),
            None => spec_flag_value(strings_view(args@), flag@) is None,
        },
{
    match position_of(args, flag) {
        Some(i) => {
            proof {
                lemma_first_position(strings_view(args@), flag@, 0);
            }
            if i < args.len() - 1 {
                Some(args[i + 1].clone())
            } else {
                None
            }
        },
        None => None,
    }
}

fn number_option(args: &Vec<String>, flag: &str, max: u64, default: u64) -> (r: u64)
    requires
        default <= max,
    ensures
        r == spec_number_option(strings_view(args@), flag@, max as nat, default as nat),
{
    match flag_value(args, flag) {
        Some(v) => match parse_unsigned_str(v.as_str(), max) {
            Some(n) => n,
            None => default,
        },
        None => default,
    }
}

/// Path of the model: the argument after `--model`, else the
/// `IPS_MODEL_PATH` variable, else the default path.
pub fn resolve_model_path(args: &Vec<String>, env_model_path: Option<&str>) -> (r: String)
    ensures
        r@ == match spec_flag_value(strings_view(args@), "--model"@) {
            Some(v) => v,
            None => match env_model_path {
                Some(e) => e@,
                None => DEFAULT_MODEL_PATH@,
            },
        },
{
    match flag_value(args, "--model") {
        Some(v) => v,
        None => match env_model_path {
            Some(e) => e.to_owned(),
            None => DEFAULT_MODEL_PATH.to_owned(),
        },
    }
}

/// Path of the access log: the argument after `--log`, else nginx's default.
pub fn resolve_log_path(args: &Vec<String>) -> (r: String)
    ensures
        r@ == match spec_flag_value(strings_view(args@), "--log"@) {
            Some(v) => v,
            None => DEFAULT_LOG_PATH@,
        },
{
    match flag_value(args, "--log") {
        Some(v) => v,
        None => DEFAULT_LOG_PATH.to_owned(),
    }
}

/// Events per IP that trigger analysis (`--window`, default 5).
pub fn resolve_window_size(args: &Vec<String>) -> (r: usize)
    ensures
        r == spec_number_option(
            strings_view(args@),
            "--window"@,
            usize::MAX as nat,
            DEFAULT_WINDOW_SIZE as nat,
        ),
{
    number_option(args, "--window", usize::MAX as u64, DEFAULT_WINDOW_SIZE as u64) as usize
}

/// Seconds an IP stays blocked (`--block-duration`, default 600).
pub fn resolve_block_duration(args: &Vec<String>) -> (r: u64)
    ensures
        r == spec_number_option(
            strings_view(args@),
            "--block-duration"@,
            u64::MAX as nat,
            DEFAULT_BLOCK_DURATION_SECS as nat,
        ),
{
    number_option(args, "--block-duration", u64::MAX, DEFAULT_BLOCK_DURATION_SECS)
}

/// Least milliseconds between two analyses (`--rate-limit`, default 500).
pub fn resolve_rate_limit(args: &Vec<String>) -> (r: u64)
    ensures
        r == spec_number_option(
            strings_view(args@),
            "--rate-limit"@,
            u64::MAX as nat,
            DEFAULT_RATE_LIMIT_MS as nat,
        ),
{
    number_option(args, "--rate-limit", u64::MAX, DEFAULT_RATE_LIMIT_MS)
}

/// Model path of the benchmark: its first argument unless that looks like
/// an option, else the `IPS_MODEL_PATH` variable, else the default path.
pub fn benchmark_model_path(args: &Vec<String>, env_model_path: Option<&str>) -> (r: String)
    ensures
        r@ == if args@.len() >= 2 && !starts_with(args@[1]@, "-"@) {
            args@[1]@
        } else {
            match env_model_path {
                Some(e) => e@,
                None => DEFAULT_MODEL_PATH@,
            }
        },
{
    if args.len() >= 2 && !starts_with_str(&char_vec(args[1].as_str()), "-") {
        return args[1].clone();
    }
    match env_model_path {
        Some(e) => e.to_owned(),
        None => DEFAULT_MODEL_PATH.to_owned(),
    }
}

} // verus!
