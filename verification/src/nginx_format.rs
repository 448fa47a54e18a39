use vstd::prelude::*;
use crate::level::LogLevel;
use crate::text::{all_class, run_end, scan_run, CharClass, is_digit_c};
use vstd::string::StrSliceExecFns;

verus! {

/// A combined access-log line:
/// `HOST - - [TS] "REQUEST" STATUS SIZE`, with anything allowed after SIZE.
pub open spec fn nginx_match(s: Seq<char>) -> bool {
    let t1 = run_end(s, CharClass::NonSpace, 0);
    t1 > 0 && {
        let a1 = run_end(s, CharClass::Space, t1);
        a1 > t1 && {
            let t2 = run_end(s, CharClass::NonSpace, a1);
            t2 > a1 && {
                let a2 = run_end(s, CharClass::Space, t2);
                a2 > t2 && {
                    let t3 = run_end(s, CharClass::NonSpace, a2);
                    t3 > a2 && {
                        let a3 = run_end(s, CharClass::Space, t3);
                        a3 > t3 && a3 < s.len() && s[a3] == '[' && {
                            let d = run_end(s, CharClass::NotChar(']'), a3 + 1);
                            d > a3 + 1 && d < s.len() && {
                                let a4 = run_end(s, CharClass::Space, d + 1);
                                a4 > d + 1 && a4 < s.len() && s[a4] == '"' && {
                                    let e = run_end(s, CharClass::NotChar('"'), a4 + 1);
                                    e > a4 + 1 && e < s.len() && {
                                        let a5 = run_end(s, CharClass::Space, e + 1);
                                        a5 > e + 1 && a5 + 3 <= s.len() && is_digit_c(s[a5])
                                            && is_digit_c(s[a5 + 1]) && is_digit_c(s[a5 + 2]) && {
                                            let a6 = run_end(s, CharClass::Space, a5 + 3);
                                            a6 > a5 + 3 && a6 < s.len() && is_digit_c(s[a6])
                                        }
                                    }
                                }
                            }
                        }
                    }
                }
            }
        }
    }
}

/// The host token captured from a matching access-log line.
pub open spec fn nginx_host(s: Seq<char>) -> Seq<char> {
    s.subrange(0, run_end(s, CharClass::NonSpace, 0))
}

/// The position of the opening `[` of the timestamp field.
pub open spec fn nginx_ts_open(s: Seq<char>) -> int {
    let t1 = run_end(s, CharClass::NonSpace, 0);
    let a1 = run_end(s, CharClass::Space, t1);
    let t2 = run_end(s, CharClass::NonSpace, a1);
    let a2 = run_end(s, CharClass::Space, t2);
    let t3 = run_end(s, CharClass::NonSpace, a2);
    run_end(s, CharClass::Space, t3)
}

/// The timestamp captured from a matching access-log line.
pub open spec fn nginx_ts(s: Seq<char>) -> Seq<char> {
    let a3 = nginx_ts_open(s);
    s.subrange(a3 + 1, run_end(s, CharClass::NotChar(']'), a3 + 1))
}

/// The position of the opening `"` of the request field.
pub open spec fn nginx_req_open(s: Seq<char>) -> int {
    let a3 = nginx_ts_open(s);
    let d = run_end(s, CharClass::NotChar(']'), a3 + 1);
    run_end(s, CharClass::Space, d + 1)
}

/// The request captured from a matching access-log line.
pub open spec fn nginx_req(s: Seq<char>) -> Seq<char> {
    let a4 = nginx_req_open(s);
    s.subrange(a4 + 1, run_end(s, CharClass::NotChar('"'), a4 + 1))
}

pub open spec fn digit_val(c: char) -> int {
    c as u32 - 48
}

/// The three-digit HTTP status of a matching access-log line, as a number.
pub open spec fn nginx_status(s: Seq<char>) -> int {
    let a4 = nginx_req_open(s);
    let e = run_end(s, CharClass::NotChar('"'), a4 + 1);
    let a5 = run_end(s, CharClass::Space, e + 1);
    100 * digit_val(s[a5]) + 10 * digit_val(s[a5 + 1]) + digit_val(s[a5 + 2])
}

/// The severity that an HTTP status code maps to.
pub open spec fn http_level(v: int) -> LogLevel {
    if 200 <= v <= 299 {
        LogLevel::Info
    } else if 300 <= v <= 399 {
        LogLevel::Debug
    } else if 400 <= v <= 499 {
        LogLevel::Warn
    } else if 500 <= v <= 599 {
        LogLevel::Error
    } else {
        LogLevel::Unknown
    }
}

/// Map an HTTP status to a severity: 2xx info, 3xx debug, 4xx warn,
/// 5xx error, anything else unknown.
pub fn http_status_level(v: u16) -> (r: LogLevel)
    ensures
        r == http_level(v as int),
{
    if 200 <= v && v <= 299 {
        LogLevel::Info
    } else if 300 <= v && v <= 399 {
        LogLevel::Debug
    } else if 400 <= v && v <= 499 {
        LogLevel::Warn
    } else if 500 <= v && v <= 599 {
        LogLevel::Error
    } else {
        LogLevel::Unknown
    }
}

fn char_digit_val(c: char) -> (d: u16)
    requires
        is_digit_c(c),
    ensures
        d == digit_val(c),
        d < 10,
{
    (c as u32 - 48) as u16
}

/// Try the access-log grammar; on a match, return host, timestamp, request
/// and the status value.
pub fn nginx_captures(line: &str) -> (r: Option<(String, String, String, u16)>)
    ensures
        match r {
            Some(c) => nginx_match(line@) && c.0@ == nginx_host(line@) && c.1@ == nginx_ts(line@)
                && c.2@ == nginx_req(line@) && c.3 == nginx_status(line@) && c.3 < 1000,
            None => !nginx_match(line@),
        },
{
    let n = line.unicode_len();
    let t1 = scan_run(line, CharClass::NonSpace, 0);
    if t1 == 0 {
        return None;
    }
    let a1 = scan_run(line, CharClass::Space, t1);
    if a1 == t1 {
        return None;
    }
    let t2 = scan_run(line, CharClass::NonSpace, a1);
    if t2 == a1 {
        return None;
    }
    let a2 = scan_run(line, CharClass::Space, t2);
    if a2 == t2 {
        return None;
    }
    let t3 = scan_run(line, CharClass::NonSpace, a2);
    if t3 == a2 {
        return None;
    }
    let a3 = scan_run(line, CharClass::Space, t3);
    if a3 == t3 || a3 == n {
        return None;
    }
    if line.get_char(a3) != '[' {
        return None;
    }
    let d = scan_run(line, CharClass::NotChar(']'), a3 + 1);
    if d == a3 + 1 || d == n {
        return None;
    }
    let a4 = scan_run(line, CharClass::Space, d + 1);
    if a4 == d + 1 || a4 == n {
        return None;
    }
    if line.get_char(a4) != '"' {
        return None;
    }
    let e = scan_run(line, CharClass::NotChar('"'), a4 + 1);
    if e == a4 + 1 || e == n {
        return None;
    }
    let a5 = scan_run(line, CharClass::Space, e + 1);
    if a5 == e + 1 || n - a5 < 3 {
        return None;
    }
    if !all_class(line, CharClass::Digit, a5, a5 + 3) {
        return None;
    }
    let a6 = scan_run(line, CharClass::Space, a5 + 3);
    if a6 == a5 + 3 || a6 == n {
        return None;
    }
    if !all_class(line, CharClass::Digit, a6, a6 + 1) {
        return None;
    }
    let d0 = char_digit_val(line.get_char(a5));
    let d1 = char_digit_val(line.get_char(a5 + 1));
    let d2 = char_digit_val(line.get_char(a5 + 2));
    let status: u16 = 100 * d0 + 10 * d1 + d2;
    let host = line.substring_char(0, t1).to_owned();
    let ts = line.substring_char(a3 + 1, d).to_owned();
    let req = line.substring_char(a4 + 1, e).to_owned();
    Some((host, ts, req, status))
}

} // verus!
