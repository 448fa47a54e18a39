use vstd::prelude::*;
use crate::entry::LogEntry;
use crate::text::{push_char, run_end, run_start, scan_back, scan_run, CharClass};
use crate::view::{level_name, level_name_spec};
use vstd::string::StrSliceExecFns;
use vstd::string::StringExecFns;

verus! {

/// The continuation lines, each followed by a newline.
pub open spec fn extras_block(xs: Seq<String>, i: int) -> Seq<char>
    decreases xs.len() - i,
    when 0 <= i <= xs.len()
{
    if i >= xs.len() {
        Seq::empty()
    } else {
        xs[i]@ + seq!['\n'] + extras_block(xs, i + 1)
    }
}

pub open spec fn opt_line(label: Seq<char>, v: Option<String>) -> Seq<char> {
    match v {
        Some(s) => label + s@ + seq!['\n'],
        None => Seq::empty(),
    }
}

/// The plain detail text of an entry: its optional timestamp, level,
/// optional message and metadata, the raw line, and any continuation lines.
pub open spec fn detail_text_spec(e: LogEntry) -> Seq<char> {
    opt_line("Timestamp: "@, e.timestamp) + "Level: "@ + level_name_spec(e.level) + seq!['\n']
        + opt_line("Message: "@, e.message) + opt_line("Metadata: "@, e.metadata)
        + "\n--- Raw ---\n"@ + e.raw@ + (if e.extra_lines@.len() > 0 {
        "\n\n--- Continuation ---\n"@ + extras_block(e.extra_lines@, 0)
    } else {
        Seq::empty()
    })
}

fn append_continuation(s: &mut String, xs: &Vec<String>)
    requires
        xs@.len() > 0,
    ensures
        final(s)@ == old(s)@ + "\n\n--- Continuation ---\n"@ + extras_block(xs@, 0),
{
    s.append("\n\n--- Continuation ---\n");
    let ghost base = s@;
    let n = xs.len();
    let mut i: usize = 0;
    while i < n
        invariant
            n == xs@.len(),
            0 <= i <= n,
            s@ + extras_block(xs@, i as int) == base + extras_block(xs@, 0),
        decreases n - i,
    {
        let ghost before = s@;
        s.append(xs[i].as_str());
        push_char(s, '\n');
        proof {
            assert(s@ + extras_block(xs@, i + 1) =~= before + extras_block(xs@, i as int));
        }
        i += 1;
    }
    proof {
        assert(s@ + extras_block(xs@, n as int) =~= s@);
    }
}

/// The field-by-field detail text of an entry.
pub fn build_detail_text(entry: &LogEntry) -> (r: String)
    ensures
        r@ == detail_text_spec(*entry),
{
    let mut s = String::new();
    match &entry.timestamp {
        Some(ts) => {
            s.append("Timestamp: ");
            s.append(ts.as_str());
            push_char(&mut s, '\n');
        },
        None => {},
    }
    s.append("Level: ");
    s.append(level_name(entry.level));
    push_char(&mut s, '\n');
    match &entry.message {
        Some(m) => {
            s.append("Message: ");
            s.append(m.as_str());
            push_char(&mut s, '\n');
        },
        None => {},
    }
    match &entry.metadata {
        Some(m) => {
            s.append("Metadata: ");
            s.append(m.as_str());
            push_char(&mut s, '\n');
        },
        None => {},
    }
    s.append("\n--- Raw ---\n");
    s.append(entry.raw.as_str());
    if entry.extra_lines.len() > 0 {
        append_continuation(&mut s, &entry.extra_lines);
    }
    proof {
        assert(s@ =~= detail_text_spec(*entry));
    }
    s
}

/// Whether a text is valid JSON, as serde_json decides it.
pub uninterp spec fn json_parses(s: Seq<char>) -> bool;

/// The pretty-printed form of a valid JSON text.
pub uninterp spec fn json_pretty_of(s: Seq<char>) -> Seq<char>;

/// Relies on serde_json::from_str::<Value>, which succeeds exactly on valid
/// JSON text, and serde_json::to_string_pretty, which cannot fail on a
/// Value; the pretty form depends on the text alone.
#[verifier::external_body]
fn json_pretty(s: &str) -> (r: Option<String>)
    ensures
        match r {
            Some(p) => json_parses(s@) && p@ == json_pretty_of(s@),
            None => !json_parses(s@),
        },
{
    match serde_json::from_str::<serde_json::Value>(s) {
        Ok(v) => serde_json::to_string_pretty(&v).ok(),
        Err(_) => None,
    }
}

/// What the detail view shows: the raw line pretty-printed when it is a
/// brace-delimited JSON value, else the field-by-field text; continuation
/// lines follow either way.
pub open spec fn detail_content_spec(e: LogEntry) -> Seq<char> {
    let a = run_end(e.raw@, CharClass::Space, 0);
    let b = run_start(e.raw@, CharClass::Space, e.raw@.len() as int);
    if a < b && e.raw@[a] == '{' && json_parses(e.raw@.subrange(a, b)) {
        json_pretty_of(e.raw@.subrange(a, b)) + (if e.extra_lines@.len() > 0 {
            "\n\n--- Continuation ---\n"@ + extras_block(e.extra_lines@, 0)
        } else {
            Seq::empty()
        })
    } else {
        detail_text_spec(e)
    }
}

/// Build the detail view's content for one entry.
pub fn detail_content(entry: &LogEntry) -> (r: String)
    ensures
        r@ == detail_content_spec(*entry),
{
    let n = entry.raw.as_str().unicode_len();
    let a = scan_run(entry.raw.as_str(), CharClass::Space, 0);
    let b = scan_back(entry.raw.as_str(), CharClass::Space, n);
    if a < b && entry.raw.as_str().get_char(a) == '{' {
        let trimmed = entry.raw.as_str().substring_char(a, b);
        match json_pretty(trimmed) {
            Some(p) => {
                let mut out = p;
                if entry.extra_lines.len() > 0 {
                    append_continuation(&mut out, &entry.extra_lines);
                }
                proof {
                    assert(out@ =~= detail_content_spec(*entry));
                }
                return out;
            },
            None => {},
        }
    }
    build_detail_text(entry)
}

} // verus!
