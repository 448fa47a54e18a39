use vstd::prelude::*;
use crate::text::{all_class, has_at, has_lit_at, run_end, scan_run, CharClass, is_digit_c, is_space_c};
use vstd::string::StrSliceExecFns;

verus! {

/// A Go slog-style line: `time=VAL level=VAL [source=VAL] msg=REST`.
pub open spec fn go_slog_match(s: Seq<char>) -> bool {
    has_at(s, 0, "time="@) && s.len() >= 5 && {
        let t = run_end(s, CharClass::NonSpace, 5);
        t > 5 && {
            let a = run_end(s, CharClass::Space, t);
            a > t && has_at(s, a, "level="@) && a + 6 <= s.len() && {
                let l = run_end(s, CharClass::Word, a + 6);
                l > a + 6 && {
                    let b = run_end(s, CharClass::Space, l);
                    b > l && {
                        if has_at(s, b, "source="@) && b + 7 <= s.len() {
                            let v = run_end(s, CharClass::NonSpace, b + 7);
                            v > b + 7 && {
                                let c = run_end(s, CharClass::Space, v);
                                c > v && has_at(s, c, "msg="@)
                            }
                        } else {
                            has_at(s, b, "msg="@)
                        }
                    }
                }
            }
        }
    }
}

/// The timestamp (including the `time=` tag) of a matching slog line.
pub open spec fn go_slog_ts(s: Seq<char>) -> Seq<char> {
    s.subrange(0, run_end(s, CharClass::NonSpace, 5))
}

/// The level word of a matching slog line.
pub open spec fn go_slog_level(s: Seq<char>) -> Seq<char> {
    let t = run_end(s, CharClass::NonSpace, 5);
    let a = run_end(s, CharClass::Space, t);
    s.subrange(a + 6, run_end(s, CharClass::Word, a + 6))
}

/// The character position where the message of a matching slog line begins.
pub open spec fn go_slog_msg_start(s: Seq<char>) -> int {
    let t = run_end(s, CharClass::NonSpace, 5);
    let a = run_end(s, CharClass::Space, t);
    let l = run_end(s, CharClass::Word, a + 6);
    let b = run_end(s, CharClass::Space, l);
    if has_at(s, b, "source="@) && b + 7 <= s.len() {
        let v = run_end(s, CharClass::NonSpace, b + 7);
        run_end(s, CharClass::Space, v) + 4
    } else {
        b + 4
    }
}

/// The message of a matching slog line.
pub open spec fn go_slog_msg(s: Seq<char>) -> Seq<char> {
    s.subrange(go_slog_msg_start(s), s.len() as int)
}

/// A Go standard-log line: `YYYY/MM/DD HH:MM:SS REST`.
pub open spec fn go_std_match(s: Seq<char>) -> bool {
    &&& s.len() >= 19
    &&& (forall|k: int| 0 <= k < 4 ==> is_digit_c(s[k]))
    &&& s[4] == '/'
    &&& is_digit_c(s[5]) && is_digit_c(s[6])
    &&& s[7] == '/'
    &&& is_digit_c(s[8]) && is_digit_c(s[9])
    &&& is_space_c(s[10])
    &&& is_digit_c(s[11]) && is_digit_c(s[12])
    &&& s[13] == ':'
    &&& is_digit_c(s[14]) && is_digit_c(s[15])
    &&& s[16] == ':'
    &&& is_digit_c(s[17]) && is_digit_c(s[18])
    &&& run_end(s, CharClass::Space, 19) > 19
}

/// The timestamp of a matching standard-log line.
pub open spec fn go_std_ts(s: Seq<char>) -> Seq<char> {
    s.subrange(0, 19)
}

/// The rest of a matching standard-log line, after the timestamp.
pub open spec fn go_std_rest(s: Seq<char>) -> Seq<char> {
    s.subrange(run_end(s, CharClass::Space, 19), s.len() as int)
}

/// Try the slog grammar, then the standard-log grammar. On a slog match the
/// result carries timestamp, level word and message; on a standard-log match
/// the level source and the message are both the text after the timestamp.
pub fn go_captures(line: &str) -> (r: Option<(String, String, String)>)
    ensures
        match r {
            Some(c) => if go_slog_match(line@) {
                c.0@ == go_slog_ts(line@) && c.1@ == go_slog_level(line@) && c.2@ == go_slog_msg(
                    line@,
                )
            } else {
                go_std_match(line@) && c.0@ == go_std_ts(line@) && c.1@ == go_std_rest(line@)
                    && c.2@ == go_std_rest(line@)
            },
            None => !go_slog_match(line@) && !go_std_match(line@),
        },
{
    proof {
        reveal_strlit("time=");
        reveal_strlit("level=");
        reveal_strlit("source=");
        reveal_strlit("msg=");
    }
    let n = line.unicode_len();
    if let Some(c) = go_slog_captures(line, n) {
        return Some(c);
    }
    if n < 19 {
        return None;
    }
    if all_class(line, CharClass::Digit, 0, 4) && line.get_char(4) == '/' && all_class(
        line,
        CharClass::Digit,
        5,
        7,
    ) && line.get_char(7) == '/' && all_class(line, CharClass::Digit, 8, 10) && all_class(
        line,
        CharClass::Space,
        10,
        11,
    ) && all_class(line, CharClass::Digit, 11, 13) && line.get_char(13) == ':' && all_class(
        line,
        CharClass::Digit,
        14,
        16,
    ) && line.get_char(16) == ':' && all_class(line, CharClass::Digit, 17, 19) {
        let a = scan_run(line, CharClass::Space, 19);
        if a > 19 {
            let ts = line.substring_char(0, 19).to_owned();
            let rest = line.substring_char(a, n).to_owned();
            let rest2 = line.substring_char(a, n).to_owned();
            return Some((ts, rest, rest2));
        }
    }
    None
}

fn go_slog_captures(line: &str, n: usize) -> (r: Option<(String, String, String)>)
    requires
        n == line@.len(),
    ensures
        match r {
            Some(c) => go_slog_match(line@) && c.0@ == go_slog_ts(line@) && c.1@ == go_slog_level(
                line@,
            ) && c.2@ == go_slog_msg(line@),
            None => !go_slog_match(line@),
        },
{
    proof {
        reveal_strlit("time=");
        reveal_strlit("level=");
        reveal_strlit("source=");
        reveal_strlit("msg=");
    }
    if !has_lit_at(line, 0, "time=") {
        return None;
    }
    let t = scan_run(line, CharClass::NonSpace, 5);
    if t == 5 {
        return None;
    }
    let a = scan_run(line, CharClass::Space, t);
    if a == t {
        return None;
    }
    if !has_lit_at(line, a, "level=") {
        return None;
    }
    let l = scan_run(line, CharClass::Word, a + 6);
    if l == a + 6 {
        return None;
    }
    let b = scan_run(line, CharClass::Space, l);
    if b == l {
        return None;
    }
    let msg_start: usize;
    if has_lit_at(line, b, "source=") {
        let v = scan_run(line, CharClass::NonSpace, b + 7);
        if v == b + 7 {
            return None;
        }
        let c = scan_run(line, CharClass::Space, v);
        if c == v {
            return None;
        }
        if !has_lit_at(line, c, "msg=") {
            return None;
        }
        msg_start = c + 4;
    } else {
        if !has_lit_at(line, b, "msg=") {
            return None;
        }
        msg_start = b + 4;
    }
    let ts = line.substring_char(0, t).to_owned();
    let lvl = line.substring_char(a + 6, l).to_owned();
    let msg = line.substring_char(msg_start, line.unicode_len()).to_owned();
    Some((ts, lvl, msg))
}

} // verus!
