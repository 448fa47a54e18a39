use vstd::prelude::*;
use crate::text::{all_class, run_end, scan_run, CharClass, is_digit_c, is_space_c};
use vstd::string::StrSliceExecFns;

verus! {

/// A Django-style line: `[DD/Mon/YYYY HH:MM:SS] LEVEL [logger] message`.
pub open spec fn django_match(s: Seq<char>) -> bool {
    s.len() >= 5 && s[0] == '[' && is_digit_c(s[1]) && is_digit_c(s[2]) && s[3] == '/' && {
        let m = run_end(s, CharClass::Word, 4);
        m > 4 && m + 15 <= s.len() && s[m] == '/' && is_digit_c(s[m + 1]) && is_digit_c(s[m + 2])
            && is_digit_c(s[m + 3]) && is_digit_c(s[m + 4]) && is_space_c(s[m + 5]) && is_digit_c(
            s[m + 6],
        ) && is_digit_c(s[m + 7]) && s[m + 8] == ':' && is_digit_c(s[m + 9]) && is_digit_c(
            s[m + 10],
        ) && s[m + 11] == ':' && is_digit_c(s[m + 12]) && is_digit_c(s[m + 13]) && s[m + 14] == ']'
            && {
            let a = run_end(s, CharClass::Space, m + 15);
            a > m + 15 && {
                let b = run_end(s, CharClass::Word, a);
                b > a && {
                    let c = run_end(s, CharClass::Space, b);
                    c > b && c < s.len() && s[c] == '[' && {
                        let d = run_end(s, CharClass::NotChar(']'), c + 1);
                        d > c + 1 && d < s.len() && run_end(s, CharClass::Space, d + 1) > d + 1
                    }
                }
            }
        }
    }
}

/// The timestamp captured from a matching Django line.
pub open spec fn django_ts(s: Seq<char>) -> Seq<char> {
    let m = run_end(s, CharClass::Word, 4);
    s.subrange(1, m + 14)
}

/// The level word captured from a matching Django line.
pub open spec fn django_level(s: Seq<char>) -> Seq<char> {
    let m = run_end(s, CharClass::Word, 4);
    let a = run_end(s, CharClass::Space, m + 15);
    s.subrange(a, run_end(s, CharClass::Word, a))
}

/// The logger name captured from a matching Django line.
pub open spec fn django_logger(s: Seq<char>) -> Seq<char> {
    let m = run_end(s, CharClass::Word, 4);
    let a = run_end(s, CharClass::Space, m + 15);
    let b = run_end(s, CharClass::Word, a);
    let c = run_end(s, CharClass::Space, b);
    s.subrange(c + 1, run_end(s, CharClass::NotChar(']'), c + 1))
}

/// The message captured from a matching Django line.
pub open spec fn django_msg(s: Seq<char>) -> Seq<char> {
    let m = run_end(s, CharClass::Word, 4);
    let a = run_end(s, CharClass::Space, m + 15);
    let b = run_end(s, CharClass::Word, a);
    let c = run_end(s, CharClass::Space, b);
    let d = run_end(s, CharClass::NotChar(']'), c + 1);
    s.subrange(run_end(s, CharClass::Space, d + 1), s.len() as int)
}

/// Try the Django grammar; on a match, return timestamp, level word,
/// logger name and message.
pub fn django_captures(line: &str) -> (r: Option<(String, String, String, String)>)
    ensures
        match r {
            Some(c) => django_match(line@) && c.0@ == django_ts(line@) && c.1@ == django_level(
                line@,
            ) && c.2@ == django_logger(line@) && c.3@ == django_msg(line@),
            None => !django_match(line@),
        },
{
    let n = line.unicode_len();
    if n < 5 {
        return None;
    }
    if line.get_char(0) != '[' {
        return None;
    }
    if !all_class(line, CharClass::Digit, 1, 3) {
        return None;
    }
    if line.get_char(3) != '/' {
        return None;
    }
    let m = scan_run(line, CharClass::Word, 4);
    if m == 4 || n - m < 15 {
        return None;
    }
    if line.get_char(m) != '/' {
        return None;
    }
    if !all_class(line, CharClass::Digit, m + 1, m + 5) {
        return None;
    }
    if !all_class(line, CharClass::Space, m + 5, m + 6) {
        return None;
    }
    if !all_class(line, CharClass::Digit, m + 6, m + 8) {
        return None;
    }
    if line.get_char(m + 8) != ':' {
        return None;
    }
    if !all_class(line, CharClass::Digit, m + 9, m + 11) {
        return None;
    }
    if line.get_char(m + 11) != ':' {
        return None;
    }
    if !all_class(line, CharClass::Digit, m + 12, m + 14) {
        return None;
    }
    if line.get_char(m + 14) != ']' {
        return None;
    }
    let a = scan_run(line, CharClass::Space, m + 15);
    if a == m + 15 {
        return None;
    }
    let b = scan_run(line, CharClass::Word, a);
    if b == a {
        return None;
    }
    let c = scan_run(line, CharClass::Space, b);
    if c == b || c == n {
        return None;
    }
    if line.get_char(c) != '[' {
        return None;
    }
    let d = scan_run(line, CharClass::NotChar(']'), c + 1);
    if d == c + 1 || d == n {
        return None;
    }
    let e = scan_run(line, CharClass::Space, d + 1);
    if e == d + 1 {
        return None;
    }
    let ts = line.substring_char(1, m + 14).to_owned();
    let lvl = line.substring_char(a, b).to_owned();
    let logger = line.substring_char(c + 1, d).to_owned();
    let msg = line.substring_char(e, n).to_owned();
    Some((ts, lvl, logger, msg))
}

} // verus!
