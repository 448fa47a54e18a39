use vstd::prelude::*;
use crate::text::{all_class, run_end, scan_run, CharClass, is_digit_c, is_space_c};
use vstd::string::StrSliceExecFns;

verus! {

/// The fixed head `[YYYY-MM-DD HH:MM:SS]` of a Laravel-style line.
pub open spec fn laravel_head_ok(s: Seq<char>) -> bool {
    &&& s.len() >= 21
    &&& s[0] == '['
    &&& (forall|k: int| 1 <= k < 5 ==> is_digit_c(s[k]))
    &&& s[5] == '-'
    &&& is_digit_c(s[6]) && is_digit_c(s[7])
    &&& s[8] == '-'
    &&& is_digit_c(s[9]) && is_digit_c(s[10])
    &&& is_space_c(s[11])
    &&& is_digit_c(s[12]) && is_digit_c(s[13])
    &&& s[14] == ':'
    &&& is_digit_c(s[15]) && is_digit_c(s[16])
    &&& s[17] == ':'
    &&& is_digit_c(s[18]) && is_digit_c(s[19])
    &&& s[20] == ']'
}

/// A full Laravel-style line: `[YYYY-MM-DD HH:MM:SS] env.LEVEL: message`.
pub open spec fn laravel_match(s: Seq<char>) -> bool {
    laravel_head_ok(s) && {
        let a = run_end(s, CharClass::Space, 21);
        a > 21 && {
            let b = run_end(s, CharClass::Word, a);
            b > a && b < s.len() && s[b] == '.' && {
                let c = run_end(s, CharClass::Word, b + 1);
                c > b + 1 && c < s.len() && s[c] == ':' && run_end(s, CharClass::Space, c + 1)
                    > c + 1
            }
        }
    }
}

/// The timestamp captured from a matching Laravel line.
pub open spec fn laravel_ts(s: Seq<char>) -> Seq<char> {
    s.subrange(1, 20)
}

/// The level word captured from a matching Laravel line.
pub open spec fn laravel_level(s: Seq<char>) -> Seq<char> {
    let a = run_end(s, CharClass::Space, 21);
    let b = run_end(s, CharClass::Word, a);
    s.subrange(b + 1, run_end(s, CharClass::Word, b + 1))
}

/// The message captured from a matching Laravel line.
pub open spec fn laravel_msg(s: Seq<char>) -> Seq<char> {
    let a = run_end(s, CharClass::Space, 21);
    let b = run_end(s, CharClass::Word, a);
    let c = run_end(s, CharClass::Word, b + 1);
    s.subrange(run_end(s, CharClass::Space, c + 1), s.len() as int)
}

/// Try the Laravel grammar; on a match, return timestamp, level word and
/// message.
pub fn laravel_captures(line: &str) -> (r: Option<(String, String, String)>)
    ensures
        match r {
            Some(c) => laravel_match(line@) && c.0@ == laravel_ts(line@) && c.1@ == laravel_level(
                line@,
            ) && c.2@ == laravel_msg(line@),
            None => !laravel_match(line@),
        },
{
    let n = line.unicode_len();
    if n < 21 {
        return None;
    }
    if line.get_char(0) != '[' {
        return None;
    }
    if !all_class(line, CharClass::Digit, 1, 5) {
        return None;
    }
    if line.get_char(5) != '-' {
        return None;
    }
    if !all_class(line, CharClass::Digit, 6, 8) {
        return None;
    }
    if line.get_char(8) != '-' {
        return None;
    }
    if !all_class(line, CharClass::Digit, 9, 11) {
        return None;
    }
    if !all_class(line, CharClass::Space, 11, 12) {
        return None;
    }
    if !all_class(line, CharClass::Digit, 12, 14) {
        return None;
    }
    if line.get_char(14) != ':' {
        return None;
    }
    if !all_class(line, CharClass::Digit, 15, 17) {
        return None;
    }
    if line.get_char(17) != ':' {
        return None;
    }
    if !all_class(line, CharClass::Digit, 18, 20) {
        return None;
    }
    if line.get_char(20) != ']' {
        return None;
    }
    let a = scan_run(line, CharClass::Space, 21);
    if a == 21 {
        return None;
    }
    let b = scan_run(line, CharClass::Word, a);
    if b == a || b == n {
        return None;
    }
    if line.get_char(b) != '.' {
        return None;
    }
    let c = scan_run(line, CharClass::Word, b + 1);
    if c == b + 1 || c == n {
        return None;
    }
    if line.get_char(c) != ':' {
        return None;
    }
    let d = scan_run(line, CharClass::Space, c + 1);
    if d == c + 1 {
        return None;
    }
    let ts = line.substring_char(1, 20).to_owned();
    let lvl = line.substring_char(b + 1, c).to_owned();
    let msg = line.substring_char(d, n).to_owned();
    Some((ts, lvl, msg))
}

} // verus!
