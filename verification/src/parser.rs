use vstd::prelude::*;
use crate::entry::{opt_view, LogEntry};
use crate::level::{chars_eq_ci, detect_level, detect_level_spec, LogLevel};
use crate::text::dec_str;
use crate::json_format::{json_can_parse, json_can_spec, json_field, json_first_cap};
use crate::laravel_format::{laravel_captures, laravel_level, laravel_match, laravel_msg, laravel_ts};
use crate::django_format::{django_captures, django_level, django_logger, django_match, django_msg, django_ts};
use crate::go_format::{go_captures, go_slog_level, go_slog_match, go_slog_msg, go_slog_ts, go_std_match, go_std_rest, go_std_ts};
use crate::nginx_format::{http_level, http_status_level, nginx_captures, nginx_host, nginx_match, nginx_req, nginx_status, nginx_ts};
use crate::text::u64_to_string;
use vstd::string::StringExecFns;
use vstd::string::StrSliceExecFns;

verus! {

/// The built-in formats, in auto-detection probe order, plus the plain
/// fallback.
#[derive(Debug, Clone, Copy, PartialEq, Eq, Structural)]
pub enum ParserKind {
    Json,
    Laravel,
    Django,
    Go,
    Nginx,
    Plain,
}

/// What the fallback parser produces: the line kept verbatim, its level
/// detected from the whole text, and the message equal to the line.
pub open spec fn fallback_rel(line: Seq<char>, e: LogEntry) -> bool {
    &&& e.raw@ == line
    &&& e.level == detect_level_spec(line)
    &&& opt_view(e.timestamp) is None
    &&& opt_view(e.message) == Some(line)
    &&& opt_view(e.metadata) is None
    &&& e.extra_lines@.len() == 0
}

/// Whether a parser accepts a line.
pub open spec fn can_parse_spec(kind: ParserKind, line: Seq<char>) -> bool {
    match kind {
        ParserKind::Json => json_can_spec(line),
        ParserKind::Laravel => laravel_match(line),
        ParserKind::Django => django_match(line),
        ParserKind::Go => go_slog_match(line) || go_std_match(line),
        ParserKind::Nginx => nginx_match(line),
        ParserKind::Plain => true,
    }
}

pub open spec fn json_parse_rel(line: Seq<char>, e: LogEntry) -> bool {
    &&& e.raw@ == line
    &&& e.level == match json_first_cap(line, "level"@, "severity"@, "lvl"@) {
        Some(c) => detect_level_spec(c),
        None => detect_level_spec(line),
    }
    &&& opt_view(e.timestamp) is None
    &&& opt_view(e.message) == json_first_cap(line, "msg"@, "message"@, "text"@)
    &&& opt_view(e.metadata) == Some(line)
    &&& e.extra_lines@.len() == 0
}

pub open spec fn laravel_parse_rel(line: Seq<char>, e: LogEntry) -> bool {
    if laravel_match(line) {
        &&& e.raw@ == line
        &&& e.level == detect_level_spec(laravel_level(line))
        &&& opt_view(e.timestamp) == Some(laravel_ts(line))
        &&& opt_view(e.message) == Some(laravel_msg(line))
        &&& opt_view(e.metadata) is None
        &&& e.extra_lines@.len() == 0
    } else {
        fallback_rel(line, e)
    }
}

pub open spec fn django_parse_rel(line: Seq<char>, e: LogEntry) -> bool {
    if django_match(line) {
        &&& e.raw@ == line
        &&& e.level == detect_level_spec(django_level(line))
        &&& opt_view(e.timestamp) == Some(django_ts(line))
        &&& opt_view(e.message) == Some(django_msg(line))
        &&& opt_view(e.metadata) == Some(django_logger(line))
        &&& e.extra_lines@.len() == 0
    } else {
        fallback_rel(line, e)
    }
}

pub open spec fn go_parse_rel(line: Seq<char>, e: LogEntry) -> bool {
    if go_slog_match(line) {
        &&& e.raw@ == line
        &&& e.level == detect_level_spec(go_slog_level(line))
        &&& opt_view(e.timestamp) == Some(go_slog_ts(line))
        &&& opt_view(e.message) == Some(go_slog_msg(line))
        &&& opt_view(e.metadata) is None
        &&& e.extra_lines@.len() == 0
    } else if go_std_match(line) {
        &&& e.raw@ == line
        &&& e.level == detect_level_spec(go_std_rest(line))
        &&& opt_view(e.timestamp) == Some(go_std_ts(line))
        &&& opt_view(e.message) == Some(go_std_rest(line))
        &&& opt_view(e.metadata) is None
        &&& e.extra_lines@.len() == 0
    } else {
        fallback_rel(line, e)
    }
}

pub open spec fn nginx_parse_rel(line: Seq<char>, e: LogEntry) -> bool {
    if nginx_match(line) {
        &&& e.raw@ == line
        &&& e.level == http_level(nginx_status(line))
        &&& opt_view(e.timestamp) == Some(nginx_ts(line))
        &&& opt_view(e.message) == Some(
            nginx_req(line) + " -> "@ + dec_str(nginx_status(line) as nat),
        )
        &&& opt_view(e.metadata) == Some(nginx_host(line))
        &&& e.extra_lines@.len() == 0
    } else {
        fallback_rel(line, e)
    }
}

/// What each parser produces for a given line.
pub open spec fn parse_rel(kind: ParserKind, line: Seq<char>, e: LogEntry) -> bool {
    match kind {
        ParserKind::Json => json_parse_rel(line, e),
        ParserKind::Laravel => laravel_parse_rel(line, e),
        ParserKind::Django => django_parse_rel(line, e),
        ParserKind::Go => go_parse_rel(line, e),
        ParserKind::Nginx => nginx_parse_rel(line, e),
        ParserKind::Plain => fallback_rel(line, e),
    }
}

/// Round trip: whatever the format, parsing keeps the raw line verbatim.
pub proof fn lemma_parse_preserves_raw(kind: ParserKind, line: Seq<char>, e: LogEntry)
    requires
        parse_rel(kind, line, e),
    ensures
        e.raw@ == line,
{
}

/// Fallback idempotence: re-parsing the raw line of a fallback-produced
/// entry with a parser that does not accept it keeps the raw line unchanged.
pub proof fn lemma_fallback_idempotence(
    kind: ParserKind,
    line: Seq<char>,
    e1: LogEntry,
    e2: LogEntry,
)
    requires
        fallback_rel(line, e1),
        !can_parse_spec(kind, e1.raw@),
        parse_rel(kind, e1.raw@, e2),
    ensures
        e2.raw@ == e1.raw@,
        e2.raw@ == line,
{
}

/// Parse a line as the plain fallback parser does.
pub fn fallback_parse(line: &str) -> (e: LogEntry)
    ensures
        fallback_rel(line@, e),
{
    LogEntry {
        raw: line.to_owned(),
        level: detect_level(line),
        timestamp: None,
        message: Some(line.to_owned()),
        metadata: None,
        extra_lines: Vec::new(),
    }
}

pub open spec fn kind_name_spec(kind: ParserKind) -> Seq<char> {
    match kind {
        ParserKind::Json => "JSON"@,
        ParserKind::Laravel => "Laravel"@,
        ParserKind::Django => "Django"@,
        ParserKind::Go => "Go"@,
        ParserKind::Nginx => "Nginx/Apache"@,
        ParserKind::Plain => "Plain"@,
    }
}

impl ParserKind {
    /// The parser's stable display name.
    pub fn name(&self) -> (r: &'static str)
        ensures
            r@ == kind_name_spec(*self),
    {
        match self {
            ParserKind::Json => "JSON",
            ParserKind::Laravel => "Laravel",
            ParserKind::Django => "Django",
            ParserKind::Go => "Go",
            ParserKind::Nginx => "Nginx/Apache",
            ParserKind::Plain => "Plain",
        }
    }

    /// Whether this parser accepts the line.
    pub fn can_parse(&self, line: &str) -> (b: bool)
        ensures
            b == can_parse_spec(*self, line@),
    {
        match self {
            ParserKind::Json => json_can_parse(line),
            ParserKind::Laravel => laravel_captures(line).is_some(),
            ParserKind::Django => django_captures(line).is_some(),
            ParserKind::Go => go_captures(line).is_some(),
            ParserKind::Nginx => nginx_captures(line).is_some(),
            ParserKind::Plain => true,
        }
    }

    /// Parse the line into an entry; a parser that does not accept the line
    /// degrades to the fallback result.
    pub fn parse(&self, line: &str) -> (e: LogEntry)
        ensures
            parse_rel(*self, line@, e),
    {
        match self {
            ParserKind::Json => {
                let level = match json_field(line, "level", "severity", "lvl") {
                    Some(c) => detect_level(c.as_str()),
                    None => detect_level(line),
                };
                let message = json_field(line, "msg", "message", "text");
                LogEntry {
                    raw: line.to_owned(),
                    level,
                    timestamp: None,
                    message,
                    metadata: Some(line.to_owned()),
                    extra_lines: Vec::new(),
                }
            },
            ParserKind::Laravel => {
                match laravel_captures(line) {
                    Some(c) => LogEntry {
                        raw: line.to_owned(),
                        level: detect_level(c.1.as_str()),
                        timestamp: Some(c.0),
                        message: Some(c.2),
                        metadata: None,
                        extra_lines: Vec::new(),
                    },
                    None => fallback_parse(line),
                }
            },
            ParserKind::Django => {
                match django_captures(line) {
                    Some(c) => LogEntry {
                        raw: line.to_owned(),
                        level: detect_level(c.1.as_str()),
                        timestamp: Some(c.0),
                        message: Some(c.3),
                        metadata: Some(c.2),
                        extra_lines: Vec::new(),
                    },
                    None => fallback_parse(line),
                }
            },
            ParserKind::Go => {
                match go_captures(line) {
                    Some(c) => LogEntry {
                        raw: line.to_owned(),
                        level: detect_level(c.1.as_str()),
                        timestamp: Some(c.0),
                        message: Some(c.2),
                        metadata: None,
                        extra_lines: Vec::new(),
                    },
                    None => fallback_parse(line),
                }
            },
            ParserKind::Nginx => {
                match nginx_captures(line) {
                    Some(c) => {
                        let mut message = c.2;
                        message.append(" -> ");
                        let status_text = u64_to_string(c.3 as u64);
                        message.append(status_text.as_str());
                        LogEntry {
                            raw: line.to_owned(),
                            level: http_status_level(c.3),
                            timestamp: Some(c.1),
                            message: Some(message),
                            metadata: Some(c.0),
                            extra_lines: Vec::new(),
                        }
                    },
                    None => fallback_parse(line),
                }
            },
            ParserKind::Plain => fallback_parse(line),
        }
    }
}

/// Two texts are equal up to ASCII case.
pub open spec fn seq_eq_ci(a: Seq<char>, b: Seq<char>) -> bool {
    a.len() == b.len() && forall|i: int| 0 <= i < a.len() ==> chars_eq_ci(a[i], b[i])
}

/// Compare two strings up to ASCII case.
pub fn str_eq_ci(a: &str, b: &str) -> (r: bool)
    ensures
        r == seq_eq_ci(a@, b@),
{
    let al = a.unicode_len();
    let bl = b.unicode_len();
    if al != bl {
        return false;
    }
    let mut i: usize = 0;
    while i < al
        invariant
            al == a@.len() == b@.len(),
            0 <= i <= al,
            forall|k: int| 0 <= k < i ==> chars_eq_ci(a@[k], b@[k]),
        decreases al - i,
    {
        let ca = a.get_char(i) as u32;
        let cb = b.get_char(i) as u32;
        let fa = if 65 <= ca && ca <= 90 {
            ca + 32
        } else {
            ca
        };
        let fb = if 65 <= cb && cb <= 90 {
            cb + 32
        } else {
            cb
        };
        if fa != fb {
            return false;
        }
        i += 1;
    }
    true
}

/// The parser a format name selects; unrecognized names select the fallback.
pub open spec fn kind_for_name(name: Seq<char>) -> ParserKind {
    if seq_eq_ci(name, "json"@) {
        ParserKind::Json
    } else if seq_eq_ci(name, "laravel"@) {
        ParserKind::Laravel
    } else if seq_eq_ci(name, "django"@) {
        ParserKind::Django
    } else if seq_eq_ci(name, "go"@) {
        ParserKind::Go
    } else if seq_eq_ci(name, "nginx"@) || seq_eq_ci(name, "apache"@) {
        ParserKind::Nginx
    } else {
        ParserKind::Plain
    }
}

/// Select a parser by name, case-insensitively (for a forced format).
pub fn get_parser_by_name(name: &str) -> (r: ParserKind)
    ensures
        r == kind_for_name(name@),
{
    if str_eq_ci(name, "json") {
        ParserKind::Json
    } else if str_eq_ci(name, "laravel") {
        ParserKind::Laravel
    } else if str_eq_ci(name, "django") {
        ParserKind::Django
    } else if str_eq_ci(name, "go") {
        ParserKind::Go
    } else if str_eq_ci(name, "nginx") || str_eq_ci(name, "apache") {
        ParserKind::Nginx
    } else {
        ParserKind::Plain
    }
}

/// How many of the sample lines a parser accepts.
pub open spec fn score_spec(kind: ParserKind, lines: Seq<Seq<char>>) -> nat
    decreases lines.len(),
{
    if lines.len() == 0 {
        0
    } else {
        score_spec(kind, lines.drop_last()) + (if can_parse_spec(kind, lines.last()) {
            1nat
        } else {
            0nat
        })
    }
}

fn score_exec(kind: ParserKind, samples: &Vec<String>) -> (s: usize)
    ensures
        s == score_spec(kind, samples.deep_view()),
        s <= samples.len(),
{
    let ghost dv = samples.deep_view();
    let mut count: usize = 0;
    let mut i: usize = 0;
    while i < samples.len()
        invariant
            dv == samples.deep_view(),
            dv.len() == samples.len(),
            0 <= i <= samples.len(),
            count <= i,
            count == score_spec(kind, dv.subrange(0, i as int)),
        decreases samples.len() - i,
    {
        proof {
            assert(dv.subrange(0, i + 1).drop_last() =~= dv.subrange(0, i as int));
            assert(dv.subrange(0, i + 1).last() == dv[i as int]);
            assert(dv[i as int] == samples@[i as int]@);
        }
        if kind.can_parse(samples[i].as_str()) {
            count += 1;
        }
        i += 1;
    }
    proof {
        assert(dv.subrange(0, dv.len() as int) =~= dv);
    }
    count
}

pub open spec fn max5(a: nat, b: nat, c: nat, d: nat, e: nat) -> nat {
    let m1 = if a >= b {
        a
    } else {
        b
    };
    let m2 = if m1 >= c {
        m1
    } else {
        c
    };
    let m3 = if m2 >= d {
        m2
    } else {
        d
    };
    if m3 >= e {
        m3
    } else {
        e
    }
}

/// The parser the auto-detection chooses: the probe parser with the highest
/// acceptance score over the samples, ties resolved to the earlier parser in
/// probe order, and the fallback when every score is zero.
pub open spec fn detect_spec(dv: Seq<Seq<char>>) -> ParserKind {
    let sj = score_spec(ParserKind::Json, dv);
    let sl = score_spec(ParserKind::Laravel, dv);
    let sd = score_spec(ParserKind::Django, dv);
    let sg = score_spec(ParserKind::Go, dv);
    let sn = score_spec(ParserKind::Nginx, dv);
    let m = max5(sj, sl, sd, sg, sn);
    if m == 0 {
        ParserKind::Plain
    } else if sj == m {
        ParserKind::Json
    } else if sl == m {
        ParserKind::Laravel
    } else if sd == m {
        ParserKind::Django
    } else if sg == m {
        ParserKind::Go
    } else {
        ParserKind::Nginx
    }
}

/// Auto-detect the best parser from sample lines: acceptance scores decide,
/// a tie goes to the earlier parser in probe order, and a zero-score board
/// selects the fallback.
pub fn detect_parser(samples: &Vec<String>) -> (r: ParserKind)
    ensures
        r == detect_spec(samples.deep_view()),
{
    let sj = score_exec(ParserKind::Json, samples);
    let sl = score_exec(ParserKind::Laravel, samples);
    let sd = score_exec(ParserKind::Django, samples);
    let sg = score_exec(ParserKind::Go, samples);
    let sn = score_exec(ParserKind::Nginx, samples);
    let m1 = if sj >= sl {
        sj
    } else {
        sl
    };
    let m2 = if m1 >= sd {
        m1
    } else {
        sd
    };
    let m3 = if m2 >= sg {
        m2
    } else {
        sg
    };
    let m = if m3 >= sn {
        m3
    } else {
        sn
    };
    if m == 0 {
        ParserKind::Plain
    } else if sj == m {
        ParserKind::Json
    } else if sl == m {
        ParserKind::Laravel
    } else if sd == m {
        ParserKind::Django
    } else if sg == m {
        ParserKind::Go
    } else {
        ParserKind::Nginx
    }
}

/// The JSON parser: brace-delimited lines with quoted `level`/`severity`/
/// `lvl` and `msg`/`message`/`text` fields.
pub struct JsonParser;

/// The Laravel-style parser.
pub struct LaravelParser;

/// The Django-style parser.
pub struct DjangoParser;

/// The Go parser: slog key-value lines and standard log-package lines.
pub struct GoLogParser;

/// The combined access-log parser.
pub struct NginxApacheParser;

/// The fallback parser: accepts anything.
pub struct PlainParser;

impl JsonParser {
    pub fn name(&self) -> (r: &'static str)
        ensures
            r@ == kind_name_spec(ParserKind::Json),
    {
        ParserKind::Json.name()
    }

    pub fn can_parse(&self, line: &str) -> (b: bool)
        ensures
            b == can_parse_spec(ParserKind::Json, line@),
    {
        ParserKind::Json.can_parse(line)
    }

    pub fn parse(&self, line: &str) -> (e: LogEntry)
        ensures
            parse_rel(ParserKind::Json, line@, e),
    {
        ParserKind::Json.parse(line)
    }
}

impl LaravelParser {
    pub fn name(&self) -> (r: &'static str)
        ensures
            r@ == kind_name_spec(ParserKind::Laravel),
    {
        ParserKind::Laravel.name()
    }

    pub fn can_parse(&self, line: &str) -> (b: bool)
        ensures
            b == can_parse_spec(ParserKind::Laravel, line@),
    {
        ParserKind::Laravel.can_parse(line)
    }

    pub fn parse(&self, line: &str) -> (e: LogEntry)
        ensures
            parse_rel(ParserKind::Laravel, line@, e),
    {
        ParserKind::Laravel.parse(line)
    }
}

impl DjangoParser {
    pub fn name(&self) -> (r: &'static str)
        ensures
            r@ == kind_name_spec(ParserKind::Django),
    {
        ParserKind::Django.name()
    }

    pub fn can_parse(&self, line: &str) -> (b: bool)
        ensures
            b == can_parse_spec(ParserKind::Django, line@),
    {
        ParserKind::Django.can_parse(line)
    }

    pub fn parse(&self, line: &str) -> (e: LogEntry)
        ensures
            parse_rel(ParserKind::Django, line@, e),
    {
        ParserKind::Django.parse(line)
    }
}

impl GoLogParser {
    pub fn name(&self) -> (r: &'static str)
        ensures
            r@ == kind_name_spec(ParserKind::Go),
    {
        ParserKind::Go.name()
    }

    pub fn can_parse(&self, line: &str) -> (b: bool)
        ensures
            b == can_parse_spec(ParserKind::Go, line@),
    {
        ParserKind::Go.can_parse(line)
    }

    pub fn parse(&self, line: &str) -> (e: LogEntry)
        ensures
            parse_rel(ParserKind::Go, line@, e),
    {
        ParserKind::Go.parse(line)
    }
}

impl NginxApacheParser {
    pub fn name(&self) -> (r: &'static str)
        ensures
            r@ == kind_name_spec(ParserKind::Nginx),
    {
        ParserKind::Nginx.name()
    }

    pub fn can_parse(&self, line: &str) -> (b: bool)
        ensures
            b == can_parse_spec(ParserKind::Nginx, line@),
    {
        ParserKind::Nginx.can_parse(line)
    }

    pub fn parse(&self, line: &str) -> (e: LogEntry)
        ensures
            parse_rel(ParserKind::Nginx, line@, e),
    {
        ParserKind::Nginx.parse(line)
    }
}

impl PlainParser {
    pub fn name(&self) -> (r: &'static str)
        ensures
            r@ == kind_name_spec(ParserKind::Plain),
    {
        ParserKind::Plain.name()
    }

    pub fn can_parse(&self, line: &str) -> (b: bool)
        ensures
            b == can_parse_spec(ParserKind::Plain, line@),
    {
        ParserKind::Plain.can_parse(line)
    }

    pub fn parse(&self, line: &str) -> (e: LogEntry)
        ensures
            parse_rel(ParserKind::Plain, line@, e),
    {
        ParserKind::Plain.parse(line)
    }
}

} // verus!
