use vstd::prelude::*;

verus! {

/// Severity of a log entry. `Unknown` is the sentinel for "no level
/// detected" and takes part in the continuation-grouping rule.
#[derive(Debug, Clone, Copy, PartialEq, Eq, Structural)]
pub enum LogLevel {
    Trace,
    Debug,
    Info,
    Warn,
    Error,
    Fatal,
    Unknown,
}

/// ASCII case folding on a single character, as a code point.
pub open spec fn fold_ci(c: char) -> int {
    if 65 <= c as u32 && c as u32 <= 90 {
        c as u32 + 32
    } else {
        c as u32 as int
    }
}

/// Two characters are equal up to ASCII case.
pub open spec fn chars_eq_ci(a: char, b: char) -> bool {
    fold_ci(a) == fold_ci(b)
}

/// `needle` occurs at position `i` of `hay`, up to ASCII case.
pub open spec fn matches_ci_at(hay: Seq<char>, needle: Seq<char>, i: int) -> bool {
    forall|j: int| 0 <= j < needle.len() ==> chars_eq_ci(hay[i + j], needle[j])
}

/// `needle` occurs somewhere in `hay`, up to ASCII case.
pub open spec fn contains_ci_spec(hay: Seq<char>, needle: Seq<char>) -> bool {
    exists|i: int| 0 <= i && i + needle.len() <= hay.len() && matches_ci_at(hay, needle, i)
}

/// The severity that a text fragment announces: the highest tag found by a
/// case-insensitive substring test, `Unknown` when none is present.
pub open spec fn detect_level_spec(s: Seq<char>) -> LogLevel {
    if contains_ci_spec(s, "FATAL"@) || contains_ci_spec(s, "EMERGENCY"@) || contains_ci_spec(
        s,
        "CRITICAL"@,
    ) {
        LogLevel::Fatal
    } else if contains_ci_spec(s, "ERROR"@) || contains_ci_spec(s, "ERR"@) {
        LogLevel::Error
    } else if contains_ci_spec(s, "WARN"@) || contains_ci_spec(s, "WARNING"@) {
        LogLevel::Warn
    } else if contains_ci_spec(s, "INFO"@) {
        LogLevel::Info
    } else if contains_ci_spec(s, "DEBUG"@) || contains_ci_spec(s, "DBG"@) {
        LogLevel::Debug
    } else if contains_ci_spec(s, "TRACE"@) {
        LogLevel::Trace
    } else {
        LogLevel::Unknown
    }
}

fn char_fold_ci(c: char) -> (r: u32)
    ensures
        r == fold_ci(c),
{
    let u = c as u32;
    if 65 <= u && u <= 90 {
        u + 32
    } else {
        u
    }
}

fn window_matches_ci(hay: &str, needle: &str, i: usize) -> (b: bool)
    requires
        i + needle@.len() <= hay@.len(),
    ensures
        b == matches_ci_at(hay@, needle@, i as int),
{
    let n = needle.unicode_len();
    let hl = hay.unicode_len();
    let mut j: usize = 0;
    while j < n
        invariant
            n == needle@.len(),
            hl == hay@.len(),
            i + n <= hl,
            0 <= j <= n,
            forall|k: int| 0 <= k < j ==> chars_eq_ci(hay@[i + k], needle@[k]),
        decreases n - j,
    {
        let hc = hay.get_char(i + j);
        let nc = needle.get_char(j);
        if char_fold_ci(hc) != char_fold_ci(nc) {
            return false;
        }
        j += 1;
    }
    true
}

/// Case-insensitive substring check; scans windows of the haystack without
/// building an uppercased copy.
pub fn contains_ci(haystack: &str, needle: &str) -> (b: bool)
    ensures
        b == contains_ci_spec(haystack@, needle@),
{
    let hl = haystack.unicode_len();
    let nl = needle.unicode_len();
    if nl > hl {
        return false;
    }
    let mut i: usize = 0;
    while i <= hl - nl
        invariant
            hl == haystack@.len(),
            nl == needle@.len(),
            nl <= hl,
            i <= hl - nl + 1,
            forall|k: int| 0 <= k < i ==> !matches_ci_at(haystack@, needle@, k),
        decreases hl - nl + 1 - i,
    {
        if window_matches_ci(haystack, needle, i) {
            return true;
        }
        i += 1;
    }
    false
}

/// Map a text fragment to a severity: the first matching tag in priority
/// order `FATAL/EMERGENCY/CRITICAL`, `ERROR/ERR`, `WARN/WARNING`, `INFO`,
/// `DEBUG/DBG`, `TRACE`, case-insensitively; `Unknown` otherwise.
pub fn detect_level(text: &str) -> (r: LogLevel)
    ensures
        r == detect_level_spec(text@),
{
    if contains_ci(text, "FATAL") || contains_ci(text, "EMERGENCY") || contains_ci(
        text,
        "CRITICAL",
    ) {
        LogLevel::Fatal
    } else if contains_ci(text, "ERROR") || contains_ci(text, "ERR") {
        LogLevel::Error
    } else if contains_ci(text, "WARN") || contains_ci(text, "WARNING") {
        LogLevel::Warn
    } else if contains_ci(text, "INFO") {
        LogLevel::Info
    } else if contains_ci(text, "DEBUG") || contains_ci(text, "DBG") {
        LogLevel::Debug
    } else if contains_ci(text, "TRACE") {
        LogLevel::Trace
    } else {
        LogLevel::Unknown
    }
}

} // verus!
