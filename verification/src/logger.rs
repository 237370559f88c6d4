//! Mapping the configured log-level names onto levels. The level names
//! are matched without regard to ASCII case, as `"Info"`, `"INFO"` and
//! `"info"` all name the same level; an unknown name falls back to the
//! given default.

use vstd::prelude::*;
use vstd::string::StrSliceExecFns;

verus! {

/// The verbosity levels a sink can be configured with.
#[derive(PartialEq, Eq, Structural, Clone, Copy, Debug)]
pub enum LogLevel {
    Trace,
    Debug,
    Info,
    Warn,
    Error,
    Off,
}

/// `a` is `b` up to ASCII case, where `b` is a lowercase letter or any
/// other character taken verbatim.
pub open spec fn char_eq_lower(a: char, b: char) -> bool {
    a == b || (97 <= b as int && b as int <= 122 && a as int == b as int - 32)
}

/// `s` spells `t` up to ASCII case, where `t` is all lowercase.
pub open spec fn str_eq_lower(s: Seq<char>, t: Seq<char>) -> bool {
    s.len() == t.len() && forall|i: int| 0 <= i < s.len() ==> char_eq_lower(s[i], #[trigger] t[i])
}

/// The level a configured name selects: one of the six level names in any
/// ASCII case, or the default for anything else.
pub open spec fn spec_to_log_level(s: Seq<char>, default: LogLevel) -> LogLevel {
    if str_eq_lower(s, "trace"@) {
        LogLevel::Trace
    } else if str_eq_lower(s, "debug"@) {
        LogLevel::Debug
    } else if str_eq_lower(s, "info"@) {
        LogLevel::Info
    } else if str_eq_lower(s, "warn"@) {
        LogLevel::Warn
    } else if str_eq_lower(s, "error"@) {
        LogLevel::Error
    } else if str_eq_lower(s, "off"@) {
        LogLevel::Off
    } else {
        default
    }
}

/// `s` equals the all-lowercase `t` up to ASCII case.
fn str_matches_lower(s: &str, t: &str) -> (r: bool)
    ensures
        r == str_eq_lower(s@, t@),
{
    let n: usize = s.unicode_len();
    if n != t.unicode_len() {
        return false;
    }
    let mut i: usize = 0;
    while i < n
        invariant
            0 <= i <= n,
            n == s@.len(),
            n == t@.len(),
            forall|k: int| 0 <= k < i ==> char_eq_lower(s@[k], #[trigger] t@[k]),
        decreases n - i,
    {
        let a = s.get_char(i);
        let b = t.get_char(i);
        let av: u32 = a as u32;
        let bv: u32 = b as u32;
        if !(av == bv || (97 <= bv && bv <= 122 && av == bv - 32)) {
            assert(!char_eq_lower(s@[i as int], t@[i as int]));
            return false;
        }
        i = i + 1;
    }
    true
}

/// Maps a configured level name to its level, ignoring ASCII case;
/// unknown names select `default`.
pub fn to_log_level(s: &str, default: LogLevel) -> (l: LogLevel)
    ensures
        l == spec_to_log_level(s@, default),
{
    if str_matches_lower(s, "trace") {
        LogLevel::Trace
    } else if str_matches_lower(s, "debug") {
        LogLevel::Debug
    } else if str_matches_lower(s, "info") {
        LogLevel::Info
    } else if str_matches_lower(s, "warn") {
        LogLevel::Warn
    } else if str_matches_lower(s, "error") {
        LogLevel::Error
    } else if str_matches_lower(s, "off") {
        LogLevel::Off
    } else {
        default
    }
}

} // verus!
