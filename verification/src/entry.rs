use vstd::prelude::*;
use crate::level::LogLevel;
use crate::text::push_char;
use vstd::string::StringExecFns;

verus! {

/// One parsed log line together with its attached continuation lines.
#[derive(Debug, Clone)]
pub struct LogEntry {
    /// The original line, line terminators stripped.
    pub raw: String,
    pub level: LogLevel,
    /// Opaque timestamp text preserved from the parser.
    pub timestamp: Option<String>,
    /// Parsed message body, when the format provides one.
    pub message: Option<String>,
    /// Parser-specific side channel (logger name, source address, raw JSON).
    pub metadata: Option<String>,
    /// Continuation lines grouped under this entry.
    pub extra_lines: Vec<String>,
}

/// The character-sequence view of an optional string.
pub open spec fn opt_view(o: Option<String>) -> Option<Seq<char>> {
    match o {
        Some(s) => Some(s@),
        None => None,
    }
}

/// The continuation lines from index `i` on, each preceded by a newline.
pub open spec fn extras_text(xs: Seq<String>, i: int) -> Seq<char>
    decreases xs.len() - i,
    when 0 <= i <= xs.len()
{
    if i >= xs.len() {
        Seq::empty()
    } else {
        seq!['\n'] + xs[i]@ + extras_text(xs, i + 1)
    }
}

/// The clipboard payload of an entry: the raw line joined with each
/// continuation line by a newline.
pub open spec fn copy_text_spec(e: LogEntry) -> Seq<char> {
    e.raw@ + extras_text(e.extra_lines@, 0)
}

impl LogEntry {
    /// The clipboard payload: the raw line, then each continuation line on
    /// its own line.
    pub fn copy_text(&self) -> (r: String)
        ensures
            r@ == copy_text_spec(*self),
    {
        let mut s = self.raw.clone();
        let n = self.extra_lines.len();
        let mut i: usize = 0;
        proof {
            assert(s@ + extras_text(self.extra_lines@, 0) =~= copy_text_spec(*self));
        }
        while i < n
            invariant
                n == self.extra_lines@.len(),
                0 <= i <= n,
                s@ + extras_text(self.extra_lines@, i as int) == copy_text_spec(*self),
            decreases n - i,
        {
            let ghost before = s@;
            push_char(&mut s, '\n');
            s.append(self.extra_lines[i].as_str());
            proof {
                assert(s@ + extras_text(self.extra_lines@, i + 1) =~= before + extras_text(
                    self.extra_lines@,
                    i as int,
                ));
            }
            i += 1;
        }
        proof {
            assert(s@ + extras_text(self.extra_lines@, n as int) =~= s@);
        }
        s
    }
}

} // verus!
