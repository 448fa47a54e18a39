use vstd::prelude::*;

verus! {

#[verifier::external_type_specification]
#[verifier::external_body]
pub struct ExRegex(regex::Regex);

/// Whether `(?i)` followed by `pat` compiles as a regular expression.
pub uninterp spec fn regex_ci_accepts(pat: Seq<char>) -> bool;

/// Whether the case-insensitive regular expression built from `pat` matches
/// somewhere in `text`.
pub uninterp spec fn regex_ci_match(pat: Seq<char>, text: Seq<char>) -> bool;

/// The form of `pat` with every regular-expression metacharacter quoted.
pub uninterp spec fn regex_escape_of(pat: Seq<char>) -> Seq<char>;

/// The leftmost, non-overlapping match ranges of the case-insensitive
/// regular expression built from `pat` in `text`, as character positions.
pub uninterp spec fn regex_ci_ranges(pat: Seq<char>, text: Seq<char>) -> Seq<(int, int)>;

/// A compiled user pattern, paired with the pattern text it was compiled
/// from; the contracts of the matching wrappers speak of that text.
pub struct Pattern {
    re: regex::Regex,
    src: String,
}

impl View for Pattern {
    type V = Seq<char>;

    /// The pattern text this matcher was compiled from.
    closed spec fn view(&self) -> Seq<char> {
        self.src@
    }
}

/// Relies on regex::Regex::new: compiling `(?i)` + `text` succeeds exactly
/// when the pattern is a valid regular expression within the size limit.
#[verifier::external_body]
fn compile_ci(text: &str) -> (r: Option<Pattern>)
    ensures
        match r {
            Some(p) => p@ == text@ && regex_ci_accepts(text@),
            None => !regex_ci_accepts(text@),
        },
{
    match regex::Regex::new(&format!("(?i){}", text)) {
        Ok(re) => Some(Pattern { re, src: text.to_string() }),
        Err(_) => None,
    }
}

/// Relies on regex::escape: quotes every metacharacter; the result depends
/// on the input text alone.
#[verifier::external_body]
fn escape_pattern(text: &str) -> (r: String)
    ensures
        r@ == regex_escape_of(text@),
{
    regex::escape(text)
}

/// Relies on regex::Regex::is_match: whether the compiled pattern matches
/// anywhere in the text; the result depends on pattern and text alone.
#[verifier::external_body]
pub fn pattern_is_match(p: &Pattern, text: &str) -> (b: bool)
    ensures
        b == regex_ci_match(p@, text@),
{
    p.re.is_match(text)
}

/// Relies on regex::Regex::find_iter: successive leftmost non-overlapping
/// matches, converted one for one from byte offsets to character positions.
#[verifier::external_body]
pub fn pattern_find_ranges(p: &Pattern, text: &str) -> (v: Vec<(usize, usize)>)
    ensures
        v@.map_values(|r: (usize, usize)| (r.0 as int, r.1 as int)) == regex_ci_ranges(p@, text@),
        forall|k: int|
            0 <= k < v@.len() ==> ((#[trigger] v@[k]).0 <= v@[k].1 && v@[k].1 <= text@.len()),
        forall|k: int| 0 <= k < v@.len() - 1 ==> (#[trigger] v@[k]).1 <= v@[k + 1].0,
{
    let mut out = Vec::new();
    for m in p.re.find_iter(text) {
        let s = text[..m.start()].chars().count();
        let e = text[..m.end()].chars().count();
        out.push((s, e));
    }
    out
}

/// How a compiled pattern relates to the text it was compiled from: the text
/// as a case-insensitive regex when it compiles, else its escaped form when
/// that compiles, else nothing.
pub open spec fn compiled_pattern_rel(text: Seq<char>, r: Option<Pattern>) -> bool {
    match r {
        Some(p) => (regex_ci_accepts(text) && p@ == text) || (!regex_ci_accepts(text)
            && regex_ci_accepts(regex_escape_of(text)) && p@ == regex_escape_of(text)),
        None => !regex_ci_accepts(text) && !regex_ci_accepts(regex_escape_of(text)),
    }
}

/// Compile a user pattern: first as a case-insensitive regex, then, on a
/// compile error, with all metacharacters escaped; `None` when both fail.
pub fn compile_user_pattern(text: &str) -> (r: Option<Pattern>)
    ensures
        compiled_pattern_rel(text@, r),
{
    match compile_ci(text) {
        Some(p) => Some(p),
        None => {
            let esc = escape_pattern(text);
            compile_ci(esc.as_str())
        },
    }
}

} // verus!
