use vstd::prelude::*;

verus! {

/// A character class used by the maximal-munch scanners that the format
/// grammars are built from.
#[derive(Debug, Clone, Copy, PartialEq, Eq, Structural)]
pub enum CharClass {
    /// ASCII whitespace.
    Space,
    /// ASCII letters, digits and underscore.
    Word,
    /// ASCII decimal digits.
    Digit,
    /// Anything but ASCII whitespace.
    NonSpace,
    /// Anything but the given character.
    NotChar(char),
}

pub open spec fn is_space_c(c: char) -> bool {
    c == ' ' || c == '\t' || c == '\n' || c == '\r' || c == '\u{b}' || c == '\u{c}'
}

pub open spec fn is_digit_c(c: char) -> bool {
    48 <= c as u32 && c as u32 <= 57
}

pub open spec fn is_word_c(c: char) -> bool {
    (97 <= c as u32 && c as u32 <= 122) || (65 <= c as u32 && c as u32 <= 90) || is_digit_c(c)
        || c == '_'
}

pub open spec fn class_holds(cls: CharClass, c: char) -> bool {
    match cls {
        CharClass::Space => is_space_c(c),
        CharClass::Word => is_word_c(c),
        CharClass::Digit => is_digit_c(c),
        CharClass::NonSpace => !is_space_c(c),
        CharClass::NotChar(stop) => c != stop,
    }
}

/// End of the maximal run of characters of class `cls` that starts at `i`.
pub open spec fn run_end(s: Seq<char>, cls: CharClass, i: int) -> int
    decreases s.len() - i,
    when 0 <= i <= s.len()
{
    if i < s.len() && class_holds(cls, s[i]) {
        run_end(s, cls, i + 1)
    } else {
        i
    }
}

pub fn class_holds_exec(cls: CharClass, c: char) -> (b: bool)
    ensures
        b == class_holds(cls, c),
{
    match cls {
        CharClass::Space => {
            let u = c as u32;
            u == 32 || u == 9 || u == 10 || u == 13 || u == 11 || u == 12
        },
        CharClass::Word => {
            let u = c as u32;
            (97 <= u && u <= 122) || (65 <= u && u <= 90) || (48 <= u && u <= 57) || u == 95
        },
        CharClass::Digit => {
            let u = c as u32;
            48 <= u && u <= 57
        },
        CharClass::NonSpace => {
            let u = c as u32;
            !(u == 32 || u == 9 || u == 10 || u == 13 || u == 11 || u == 12)
        },
        CharClass::NotChar(stop) => c != stop,
    }
}

/// Walk to the end of the maximal run of `cls` characters starting at `i`.
pub fn scan_run(s: &str, cls: CharClass, i: usize) -> (r: usize)
    requires
        i <= s@.len(),
    ensures
        r == run_end(s@, cls, i as int),
        i <= r <= s@.len(),
{
    let n = s.unicode_len();
    let mut j: usize = i;
    loop
        invariant
            i <= j <= n,
            n == s@.len(),
            run_end(s@, cls, i as int) == run_end(s@, cls, j as int),
        decreases n - j,
    {
        if j == n {
            return j;
        }
        let c = s.get_char(j);
        if !class_holds_exec(cls, c) {
            return j;
        }
        j += 1;
    }
}

/// Start of the maximal run of characters of class `cls` that ends at `j`.
pub open spec fn run_start(s: Seq<char>, cls: CharClass, j: int) -> int
    decreases j,
    when 0 <= j <= s.len()
{
    if j > 0 && class_holds(cls, s[j - 1]) {
        run_start(s, cls, j - 1)
    } else {
        j
    }
}

/// Walk backwards from `j` to the start of the maximal run of `cls`
/// characters that ends at `j`.
pub fn scan_back(s: &str, cls: CharClass, j: usize) -> (r: usize)
    requires
        j <= s@.len(),
    ensures
        r == run_start(s@, cls, j as int),
        r <= j,
{
    let mut i: usize = j;
    loop
        invariant
            0 <= i <= j <= s@.len(),
            run_start(s@, cls, j as int) == run_start(s@, cls, i as int),
        decreases i,
    {
        if i == 0 {
            return i;
        }
        let c = s.get_char(i - 1);
        if !class_holds_exec(cls, c) {
            return i;
        }
        i -= 1;
    }
}

/// Every character of `s` in `[i, j)` belongs to class `cls`.
pub fn all_class(s: &str, cls: CharClass, i: usize, j: usize) -> (b: bool)
    requires
        i <= j <= s@.len(),
    ensures
        b == forall|k: int| i <= k < j ==> class_holds(cls, s@[k]),
{
    let mut m: usize = i;
    while m < j
        invariant
            i <= m <= j <= s@.len(),
            forall|k: int| i <= k < m ==> class_holds(cls, s@[k]),
        decreases j - m,
    {
        if !class_holds_exec(cls, s.get_char(m)) {
            return false;
        }
        m += 1;
    }
    true
}

/// The literal `lit` stands at position `i` of `s`.
pub open spec fn has_at(s: Seq<char>, i: int, lit: Seq<char>) -> bool {
    0 <= i && i + lit.len() <= s.len() && s.subrange(i, i + lit.len()) == lit
}

/// Check whether the literal `lit` stands at character position `i` of `s`.
pub fn has_lit_at(s: &str, i: usize, lit: &str) -> (b: bool)
    requires
        i <= s@.len(),
    ensures
        b == has_at(s@, i as int, lit@),
{
    let n = s.unicode_len();
    let m = lit.unicode_len();
    if n - i < m {
        assert(!has_at(s@, i as int, lit@));
        return false;
    }
    let mut j: usize = 0;
    while j < m
        invariant
            n == s@.len(),
            m == lit@.len(),
            i + m <= n,
            0 <= j <= m,
            forall|k: int| 0 <= k < j ==> s@[i + k] == lit@[k],
        decreases m - j,
    {
        if s.get_char(i + j) != lit.get_char(j) {
            assert(s@.subrange(i as int, i + m) != lit@) by {
                assert(s@.subrange(i as int, i + m)[j as int] != lit@[j as int]);
            }
            return false;
        }
        j += 1;
    }
    assert(s@.subrange(i as int, i + m) =~= lit@);
    true
}

/// `needle` occurs as a (case-sensitive) substring of `hay`.
pub open spec fn contains_spec(hay: Seq<char>, needle: Seq<char>) -> bool {
    exists|i: int| has_at(hay, i, needle)
}

/// Case-sensitive substring search.
pub fn contains_str(hay: &str, needle: &str) -> (b: bool)
    ensures
        b == contains_spec(hay@, needle@),
{
    let hl = hay.unicode_len();
    let nl = needle.unicode_len();
    if nl > hl {
        assert(forall|i: int| !has_at(hay@, i, needle@));
        return false;
    }
    if nl == 0 {
        assert(hay@.subrange(0, 0) =~= needle@);
        assert(has_at(hay@, 0, needle@));
        return true;
    }
    let mut i: usize = 0;
    while i <= hl - nl
        invariant
            hl == hay@.len(),
            nl == needle@.len(),
            1 <= nl <= hl,
            i <= hl - nl + 1,
            forall|k: int| 0 <= k < i ==> !has_at(hay@, k, needle@),
        decreases hl - nl + 1 - i,
    {
        if has_lit_at(hay, i, needle) {
            return true;
        }
        i += 1;
    }
    assert(forall|k: int| has_at(hay@, k, needle@) ==> 0 <= k <= hl - nl);
    false
}

pub open spec fn digit_char(d: int) -> char {
    ((48 + d) as u8) as char
}

/// The decimal notation of `n`, most significant digit first.
pub open spec fn dec_str(n: nat) -> Seq<char>
    decreases n,
{
    if n < 10 {
        seq![digit_char(n as int)]
    } else {
        dec_str(n / 10).push(digit_char((n % 10) as int))
    }
}

/// Relies on String::push: appends one character at the end.
#[verifier::external_body]
pub fn push_char(s: &mut String, c: char)
    ensures
        final(s)@ == old(s)@.push(c),
{
    s.push(c);
}

/// Relies on String::pop: removes and returns the last character.
#[verifier::external_body]
pub fn pop_char(s: &mut String) -> (r: Option<char>)
    ensures
        old(s)@.len() == 0 ==> final(s)@ == old(s)@ && r is None,
        old(s)@.len() > 0 ==> final(s)@ == old(s)@.drop_last() && r == Some(old(s)@.last()),
{
    s.pop()
}

fn digit_to_char(d: u8) -> (c: char)
    requires
        d < 10,
    ensures
        c == digit_char(d as int),
{
    (48 + d) as char
}

/// Decimal notation of `n` as a string.
pub fn u64_to_string(n: u64) -> (s: String)
    ensures
        s@ == dec_str(n as nat),
    decreases n,
{
    if n < 10 {
        let mut s = String::new();
        push_char(&mut s, digit_to_char(n as u8));
        assert(s@ =~= dec_str(n as nat));
        s
    } else {
        let mut s = u64_to_string(n / 10);
        push_char(&mut s, digit_to_char((n % 10) as u8));
        s
    }
}

/// What remains of `s` after dropping its first `n` characters.
pub open spec fn skip_chars_spec(s: Seq<char>, n: int) -> Seq<char> {
    if 0 <= n <= s.len() {
        s.subrange(n, s.len() as int)
    } else {
        Seq::empty()
    }
}

/// Drop the first `n` characters of `s`; empty when `s` is shorter than `n`.
pub fn skip_chars(s: &str, n: usize) -> (r: String)
    ensures
        r@ == skip_chars_spec(s@, n as int),
{
    let l = s.unicode_len();
    if n >= l {
        let r = String::new();
        assert(r@ =~= skip_chars_spec(s@, n as int));
        r
    } else {
        s.substring_char(n, l).to_owned()
    }
}

} // verus!
