use vstd::prelude::*;
use crate::text::{has_at, has_lit_at, run_end, run_start, scan_back, scan_run, CharClass};
use vstd::string::StrSliceExecFns;

verus! {

/// The line, with surrounding whitespace trimmed, starts with `{` and ends
/// with `}`.
pub open spec fn json_can_spec(s: Seq<char>) -> bool {
    let a = run_end(s, CharClass::Space, 0);
    let b = run_start(s, CharClass::Space, s.len() as int);
    a < b && s[a] == '{' && s[b - 1] == '}'
}

/// Check whether the trimmed line is brace-delimited.
pub fn json_can_parse(line: &str) -> (r: bool)
    ensures
        r == json_can_spec(line@),
{
    let n = line.unicode_len();
    let a = scan_run(line, CharClass::Space, 0);
    let b = scan_back(line, CharClass::Space, n);
    a < b && line.get_char(a) == '{' && line.get_char(b - 1) == '}'
}

/// A quoted key at position `i`, followed by a colon and a non-empty quoted
/// value: `"KEY" : "VALUE"` with optional whitespace around the colon.
pub open spec fn json_key_at(s: Seq<char>, i: int, key: Seq<char>) -> bool {
    &&& 0 <= i && i < s.len() && s[i] == '"'
    &&& has_at(s, i + 1, key)
    &&& i + 1 + key.len() < s.len() && s[i + 1 + key.len()] == '"'
    &&& {
        let p = run_end(s, CharClass::Space, i + 2 + key.len());
        p < s.len() && s[p] == ':' && {
            let q = run_end(s, CharClass::Space, p + 1);
            q < s.len() && s[q] == '"' && {
                let r = run_end(s, CharClass::NotChar('"'), q + 1);
                r > q + 1 && r < s.len()
            }
        }
    }
}

/// The value captured by a `json_key_at` match.
pub open spec fn json_key_cap(s: Seq<char>, i: int, key: Seq<char>) -> Seq<char> {
    let p = run_end(s, CharClass::Space, i + 2 + key.len());
    let q = run_end(s, CharClass::Space, p + 1);
    let r = run_end(s, CharClass::NotChar('"'), q + 1);
    s.subrange(q + 1, r)
}

/// One of three alternative keys matches at position `i`, tried in order.
pub open spec fn json_alt_at(s: Seq<char>, i: int, k1: Seq<char>, k2: Seq<char>, k3: Seq<char>) -> bool {
    json_key_at(s, i, k1) || json_key_at(s, i, k2) || json_key_at(s, i, k3)
}

/// The value of the first alternative key that matches at position `i`.
pub open spec fn json_alt_cap(s: Seq<char>, i: int, k1: Seq<char>, k2: Seq<char>, k3: Seq<char>) -> Seq<
    char,
> {
    if json_key_at(s, i, k1) {
        json_key_cap(s, i, k1)
    } else if json_key_at(s, i, k2) {
        json_key_cap(s, i, k2)
    } else {
        json_key_cap(s, i, k3)
    }
}

/// The least position at or after `i` where one of the keys matches.
pub open spec fn json_find(s: Seq<char>, i: int, k1: Seq<char>, k2: Seq<char>, k3: Seq<char>) -> Option<
    int,
>
    decreases s.len() - i,
    when 0 <= i <= s.len()
{
    if i >= s.len() {
        None
    } else if json_alt_at(s, i, k1, k2, k3) {
        Some(i)
    } else {
        json_find(s, i + 1, k1, k2, k3)
    }
}

/// The captured value of the leftmost match of the three keys, if any.
pub open spec fn json_first_cap(s: Seq<char>, k1: Seq<char>, k2: Seq<char>, k3: Seq<char>) -> Option<
    Seq<char>,
> {
    match json_find(s, 0, k1, k2, k3) {
        Some(i) => Some(json_alt_cap(s, i, k1, k2, k3)),
        None => None,
    }
}

fn json_key_check(line: &str, i: usize, key: &str) -> (r: Option<(usize, usize)>)
    requires
        i < line@.len(),
    ensures
        match r {
            Some(c) => json_key_at(line@, i as int, key@) && c.0 == {
                let p = run_end(line@, CharClass::Space, i + 2 + key@.len());
                run_end(line@, CharClass::Space, p + 1) + 1
            } && c.1 == {
                let p = run_end(line@, CharClass::Space, i + 2 + key@.len());
                let q = run_end(line@, CharClass::Space, p + 1);
                run_end(line@, CharClass::NotChar('"'), q + 1)
            } && c.0 <= c.1 <= line@.len(),
            None => !json_key_at(line@, i as int, key@),
        },
{
    let n = line.unicode_len();
    if line.get_char(i) != '"' {
        return None;
    }
    if !has_lit_at(line, i + 1, key) {
        return None;
    }
    let kl = key.unicode_len();
    let j = i + 1 + kl;
    if j >= n {
        return None;
    }
    if line.get_char(j) != '"' {
        return None;
    }
    let p = scan_run(line, CharClass::Space, j + 1);
    if p == n {
        return None;
    }
    if line.get_char(p) != ':' {
        return None;
    }
    let q = scan_run(line, CharClass::Space, p + 1);
    if q == n {
        return None;
    }
    if line.get_char(q) != '"' {
        return None;
    }
    let r = scan_run(line, CharClass::NotChar('"'), q + 1);
    if r == q + 1 || r == n {
        return None;
    }
    Some((q + 1, r))
}

fn json_alt_check(line: &str, i: usize, k1: &str, k2: &str, k3: &str) -> (r: Option<
    (usize, usize),
>)
    requires
        i < line@.len(),
    ensures
        match r {
            Some(c) => json_alt_at(line@, i as int, k1@, k2@, k3@) && line@.subrange(
                c.0 as int,
                c.1 as int,
            ) == json_alt_cap(line@, i as int, k1@, k2@, k3@) && c.0 <= c.1 <= line@.len(),
            None => !json_alt_at(line@, i as int, k1@, k2@, k3@),
        },
{
    if let Some(c) = json_key_check(line, i, k1) {
        assert(line@.subrange(c.0 as int, c.1 as int) == json_key_cap(line@, i as int, k1@));
        return Some(c);
    }
    if let Some(c) = json_key_check(line, i, k2) {
        return Some(c);
    }
    if let Some(c) = json_key_check(line, i, k3) {
        return Some(c);
    }
    None
}

/// Extract the value of the leftmost occurrence of one of three quoted
/// string fields, the way the field-extraction patterns of the JSON parser
/// capture it.
pub fn json_field(line: &str, k1: &str, k2: &str, k3: &str) -> (r: Option<String>)
    ensures
        match r {
            Some(cap) => json_first_cap(line@, k1@, k2@, k3@) == Some(cap@),
            None => json_first_cap(line@, k1@, k2@, k3@) is None,
        },
{
    let n = line.unicode_len();
    let mut i: usize = 0;
    while i < n
        invariant
            n == line@.len(),
            0 <= i <= n,
            json_find(line@, 0, k1@, k2@, k3@) == json_find(line@, i as int, k1@, k2@, k3@),
        decreases n - i,
    {
        if let Some(c) = json_alt_check(line, i, k1, k2, k3) {
            let cap = line.substring_char(c.0, c.1).to_owned();
            return Some(cap);
        }
        i += 1;
    }
    None
}

} // verus!
