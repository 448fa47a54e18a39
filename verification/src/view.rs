use vstd::prelude::*;
use crate::entry::{opt_view, LogEntry};
use crate::level::LogLevel;
use crate::pattern::{pattern_find_ranges, regex_ci_ranges, Pattern};
use crate::text::{dec_str, skip_chars, skip_chars_spec, u64_to_string};
use vstd::string::StrSliceExecFns;
use vstd::string::StringExecFns;

verus! {

/// The color a severity is drawn with; the render surface maps these to its
/// own palette.
#[derive(Debug, Clone, Copy, PartialEq, Eq, Structural)]
pub enum LevelColor {
    Red,
    Yellow,
    Green,
    Blue,
    Dim,
    Default,
}

pub open spec fn level_color_spec(l: LogLevel) -> LevelColor {
    match l {
        LogLevel::Fatal => LevelColor::Red,
        LogLevel::Error => LevelColor::Red,
        LogLevel::Warn => LevelColor::Yellow,
        LogLevel::Info => LevelColor::Green,
        LogLevel::Debug => LevelColor::Blue,
        LogLevel::Trace => LevelColor::Dim,
        LogLevel::Unknown => LevelColor::Default,
    }
}

/// Fatal and Error draw red, Warn yellow, Info green, Debug blue, Trace dim,
/// Unknown in the default color.
pub fn level_color(l: LogLevel) -> (r: LevelColor)
    ensures
        r == level_color_spec(l),
{
    match l {
        LogLevel::Fatal => LevelColor::Red,
        LogLevel::Error => LevelColor::Red,
        LogLevel::Warn => LevelColor::Yellow,
        LogLevel::Info => LevelColor::Green,
        LogLevel::Debug => LevelColor::Blue,
        LogLevel::Trace => LevelColor::Dim,
        LogLevel::Unknown => LevelColor::Default,
    }
}

pub open spec fn level_tag_spec(l: LogLevel) -> Seq<char> {
    match l {
        LogLevel::Fatal => "[FATAL] "@,
        LogLevel::Error => "[ERROR] "@,
        LogLevel::Warn => "[WARN]  "@,
        LogLevel::Info => "[INFO]  "@,
        LogLevel::Debug => "[DEBUG] "@,
        LogLevel::Trace => "[TRACE] "@,
        LogLevel::Unknown => ""@,
    }
}

/// The aligned tag a feed row is prefixed with; empty for Unknown.
pub fn level_tag(l: LogLevel) -> (r: &'static str)
    ensures
        r@ == level_tag_spec(l),
{
    match l {
        LogLevel::Fatal => "[FATAL] ",
        LogLevel::Error => "[ERROR] ",
        LogLevel::Warn => "[WARN]  ",
        LogLevel::Info => "[INFO]  ",
        LogLevel::Debug => "[DEBUG] ",
        LogLevel::Trace => "[TRACE] ",
        LogLevel::Unknown => "",
    }
}

pub open spec fn level_name_spec(l: LogLevel) -> Seq<char> {
    match l {
        LogLevel::Fatal => "Fatal"@,
        LogLevel::Error => "Error"@,
        LogLevel::Warn => "Warn"@,
        LogLevel::Info => "Info"@,
        LogLevel::Debug => "Debug"@,
        LogLevel::Trace => "Trace"@,
        LogLevel::Unknown => "Unknown"@,
    }
}

/// The severity's display name.
pub fn level_name(l: LogLevel) -> (r: &'static str)
    ensures
        r@ == level_name_spec(l),
{
    match l {
        LogLevel::Fatal => "Fatal",
        LogLevel::Error => "Error",
        LogLevel::Warn => "Warn",
        LogLevel::Info => "Info",
        LogLevel::Debug => "Debug",
        LogLevel::Trace => "Trace",
        LogLevel::Unknown => "Unknown",
    }
}

/// The first visible ordinal the viewport materializes: a centered offset
/// when frozen or when the cursor sits above the tail window, else the tail
/// offset.
pub open spec fn viewport_offset_spec(
    frozen: bool,
    selected: int,
    visible: int,
    height: int,
) -> int {
    if frozen || selected < visible - height {
        if selected - height / 2 > 0 {
            selected - height / 2
        } else {
            0
        }
    } else {
        if visible - height > 0 {
            visible - height
        } else {
            0
        }
    }
}

/// The viewport window over `visible` rows of which `height` fit: the
/// clamped cursor, the first row shown, and the row after the last shown.
pub fn viewport_window(frozen: bool, selected: usize, visible: usize, height: usize) -> (r: (
    usize,
    usize,
    usize,
))
    requires
        visible > 0,
        visible + height + 1 <= usize::MAX,
    ensures
        r.0 as int == if selected < visible {
            selected as int
        } else {
            visible - 1
        },
        r.1 as int == viewport_offset_spec(frozen, r.0 as int, visible as int, height as int),
        r.2 as int == if r.1 + height + 1 <= visible {
            r.1 + height + 1
        } else {
            visible as int
        },
        r.1 <= r.2 <= visible,
{
    let sel = if selected < visible {
        selected
    } else {
        visible - 1
    };
    let offset = if frozen || (visible >= height && sel < visible - height) {
        if sel > height / 2 {
            sel - height / 2
        } else {
            0
        }
    } else {
        if visible > height {
            visible - height
        } else {
            0
        }
    };
    let end = if offset + height + 1 <= visible {
        offset + height + 1
    } else {
        visible
    };
    (sel, offset, end)
}

/// How one span of a feed row is styled.
#[derive(Debug, Clone, Copy, PartialEq, Eq, Structural)]
pub enum SpanStyle {
    /// Ordinary text, colored by the entry's level.
    Plain,
    /// The bold level tag.
    Tag,
    /// A hit of the active search pattern, drawn inverted.
    Search,
    /// A hit of a highlight pattern, with its palette color index.
    Highlight(usize),
    /// The dim `[+N lines]` continuation marker.
    Marker,
}

/// One styled piece of a feed row.
#[derive(Debug)]
pub struct RowSpan {
    pub text: String,
    pub style: SpanStyle,
}

/// The spans' texts, concatenated.
pub open spec fn spans_text(spans: Seq<RowSpan>) -> Seq<char>
    decreases spans.len(),
{
    if spans.len() == 0 {
        Seq::empty()
    } else {
        spans[0].text@ + spans_text(spans.drop_first())
    }
}

/// A range list is ordered by start position, longer ranges first on ties,
/// and stays inside the row.
pub open spec fn ranges_sorted(rs: Seq<(usize, usize, SpanStyle)>) -> bool {
    forall|i: int, j: int|
        0 <= i < j < rs.len() ==> (rs[i].0 < rs[j].0 || (rs[i].0 == rs[j].0 && rs[i].1 >= rs[j].1))
}

pub open spec fn ranges_wf(rs: Seq<(usize, usize, SpanStyle)>, n: int) -> bool {
    forall|i: int| 0 <= i < rs.len() ==> (#[trigger] rs[i]).0 <= rs[i].1 <= n
}

/// Greedy overlap removal: walk the sorted ranges and keep each range that
/// starts at or after the end of the last kept one.
pub open spec fn greedy_select(
    rs: Seq<(usize, usize, SpanStyle)>,
    i: int,
    last_end: int,
) -> Seq<(usize, usize, SpanStyle)>
    decreases rs.len() - i,
    when 0 <= i <= rs.len()
{
    if i >= rs.len() {
        Seq::empty()
    } else if rs[i].0 >= last_end {
        seq![rs[i]] + greedy_select(rs, i + 1, rs[i].1 as int)
    } else {
        greedy_select(rs, i + 1, last_end)
    }
}

/// The sort key order of two tagged ranges: `a` may stand before `b` when
/// it starts earlier, or starts at the same position with an equal or
/// longer range.
pub open spec fn range_le(a: (usize, usize, SpanStyle), b: (usize, usize, SpanStyle)) -> bool {
    a.0 < b.0 || (a.0 == b.0 && a.1 >= b.1)
}

/// One step of a stable insertion sort: the item goes behind every entry
/// whose key lets it stay in front.
pub open spec fn insert_sorted(
    s: Seq<(usize, usize, SpanStyle)>,
    item: (usize, usize, SpanStyle),
) -> Seq<(usize, usize, SpanStyle)>
    decreases s.len(),
{
    if s.len() == 0 {
        seq![item]
    } else if range_le(s.last(), item) {
        s.push(item)
    } else {
        insert_sorted(s.drop_last(), item).push(s.last())
    }
}

/// The stable sort of a tagged range list by `(start, reversed end)`:
/// entries with equal keys keep their incoming order.
pub open spec fn stable_sort_ranges(rs: Seq<(usize, usize, SpanStyle)>) -> Seq<
    (usize, usize, SpanStyle),
>
    decreases rs.len(),
{
    if rs.len() == 0 {
        Seq::empty()
    } else {
        insert_sorted(stable_sort_ranges(rs.drop_last()), rs.last())
    }
}

proof fn lemma_insert_sorted_at(
    s: Seq<(usize, usize, SpanStyle)>,
    item: (usize, usize, SpanStyle),
    j: int,
)
    requires
        0 <= j <= s.len(),
        forall|k: int| j <= k < s.len() ==> !range_le(#[trigger] s[k], item),
        j > 0 ==> range_le(s[j - 1], item),
    ensures
        insert_sorted(s, item) == s.insert(j, item),
    decreases s.len(),
{
    if s.len() == 0 {
        assert(insert_sorted(s, item) =~= s.insert(0, item));
    } else if range_le(s.last(), item) {
        assert(j == s.len());
        assert(insert_sorted(s, item) =~= s.insert(s.len() as int, item));
    } else {
        assert(j < s.len());
        lemma_insert_sorted_at(s.drop_last(), item, j);
        assert(insert_sorted(s, item) =~= s.insert(j, item));
    }
}

/// Where a new range goes in a sorted list: after every entry whose key
/// `(start, reversed end)` is at or before the new one's.
fn insert_pos(out: &Vec<(usize, usize, SpanStyle)>, item: (usize, usize, SpanStyle)) -> (j: usize)
    requires
        ranges_sorted(out@),
    ensures
        j <= out@.len(),
        forall|k: int|
            j <= k < out@.len() ==> ((#[trigger] out@[k]).0 > item.0 || (out@[k].0 == item.0
                && out@[k].1 < item.1)),
        j > 0 ==> (out@[j - 1].0 < item.0 || (out@[j - 1].0 == item.0 && out@[j - 1].1 >= item.1)),
{
    let mut j: usize = out.len();
    while j > 0
        invariant
            0 <= j <= out@.len(),
            ranges_sorted(out@),
            forall|k: int|
                j <= k < out@.len() ==> ((#[trigger] out@[k]).0 > item.0 || (out@[k].0 == item.0
                    && out@[k].1 < item.1)),
        decreases j,
    {
        let prev = out[j - 1];
        if prev.0 > item.0 || (prev.0 == item.0 && prev.1 < item.1) {
            j -= 1;
        } else {
            return j;
        }
    }
    0
}

/// Insertion sort by `(start, reversed end)`, keeping equal keys in their
/// incoming order.
fn sort_ranges(rs: &Vec<(usize, usize, SpanStyle)>) -> (out: Vec<(usize, usize, SpanStyle)>)
    ensures
        ranges_sorted(out@),
        out@ == stable_sort_ranges(rs@),
        out@.to_multiset() == rs@.to_multiset(),
        out@.len() == rs@.len(),
{
    let mut out: Vec<(usize, usize, SpanStyle)> = Vec::new();
    let mut i: usize = 0;
    proof {
        assert(out@ =~= rs@.subrange(0, 0));
    }
    while i < rs.len()
        invariant
            0 <= i <= rs@.len(),
            ranges_sorted(out@),
            out@ == stable_sort_ranges(rs@.subrange(0, i as int)),
            out@.to_multiset() == rs@.subrange(0, i as int).to_multiset(),
            out@.len() == i,
        decreases rs@.len() - i,
    {
        let item = rs[i];
        let j = insert_pos(&out, item);
        let ghost out_pre = out@;
        out.insert(j, item);
        proof {
            lemma_insert_sorted_at(out_pre, item, j as int);
            assert(rs@.subrange(0, i + 1).drop_last() =~= rs@.subrange(0, i as int));
            assert(rs@.subrange(0, i + 1).last() == item);
            assert(out@ == stable_sort_ranges(rs@.subrange(0, i + 1)));
            assert forall|a: int, b: int| 0 <= a < b < out@.len() implies (out@[a].0 < out@[b].0 || (
            out@[a].0 == out@[b].0 && out@[a].1 >= out@[b].1)) by {
                if b < j {
                    assert(out@[a] == out_pre[a]);
                    assert(out@[b] == out_pre[b]);
                } else if a < j && b == j {
                    assert(out@[a] == out_pre[a]);
                    assert(out_pre[j - 1].0 < item.0 || (out_pre[j - 1].0 == item.0 && out_pre[j
                        - 1].1 >= item.1));
                    if a < j - 1 {
                        assert(out_pre[a].0 < out_pre[j - 1].0 || (out_pre[a].0 == out_pre[j - 1].0
                            && out_pre[a].1 >= out_pre[j - 1].1));
                    }
                } else if a == j && b > j {
                    assert(out@[b] == out_pre[b - 1]);
                } else if a < j && b > j {
                    assert(out@[a] == out_pre[a]);
                    assert(out@[b] == out_pre[b - 1]);
                } else {
                    assert(out@[a] == out_pre[a - 1]);
                    assert(out@[b] == out_pre[b - 1]);
                }
            }
            vstd::seq_lib::to_multiset_insert(out_pre, j as int, item);
            assert(rs@.subrange(0, i + 1) =~= rs@.subrange(0, i as int).push(item));
            vstd::seq_lib::to_multiset_build(rs@.subrange(0, i as int), item);
        }
        i += 1;
    }
    proof {
        assert(rs@.subrange(0, rs@.len() as int) =~= rs@);
    }
    out
}

fn greedy_filter(rs: &Vec<(usize, usize, SpanStyle)>) -> (out: Vec<(usize, usize, SpanStyle)>)
    ensures
        out@ == greedy_select(rs@, 0, 0),
{
    let mut out: Vec<(usize, usize, SpanStyle)> = Vec::new();
    let mut last_end: usize = 0;
    let mut i: usize = 0;
    while i < rs.len()
        invariant
            0 <= i <= rs@.len(),
            greedy_select(rs@, 0, 0) == out@ + greedy_select(rs@, i as int, last_end as int),
        decreases rs@.len() - i,
    {
        let ghost out_pre = out@;
        let r = rs[i];
        if r.0 >= last_end {
            out.push(r);
            last_end = r.1;
            proof {
                assert(out@ + greedy_select(rs@, i + 1, r.1 as int) =~= out_pre + (seq![r]
                    + greedy_select(rs@, i + 1, r.1 as int)));
            }
        }
        i += 1;
    }
    proof {
        assert(out@ + greedy_select(rs@, rs@.len() as int, last_end as int) =~= out@);
    }
    out
}

/// The styled spans a text splits into under the selected ranges: the gap
/// before each range in the base style, the range in its own style, and the
/// remainder in the base style.
pub open spec fn split_spans_spec(
    text: Seq<char>,
    sel: Seq<(usize, usize, SpanStyle)>,
    i: int,
    pos: int,
) -> Seq<(Seq<char>, SpanStyle)>
    decreases sel.len() - i,
    when 0 <= i <= sel.len()
{
    if i >= sel.len() {
        if pos < text.len() {
            seq![(text.subrange(pos, text.len() as int), SpanStyle::Plain)]
        } else {
            Seq::empty()
        }
    } else {
        let r = sel[i];
        let before: Seq<(Seq<char>, SpanStyle)> = if pos < r.0 {
            seq![(text.subrange(pos, r.0 as int), SpanStyle::Plain)]
        } else {
            Seq::empty()
        };
        before + seq![(text.subrange(r.0 as int, r.1 as int), r.2)] + split_spans_spec(
            text,
            sel,
            i + 1,
            r.1 as int,
        )
    }
}

pub open spec fn row_spans_view(spans: Seq<RowSpan>) -> Seq<(Seq<char>, SpanStyle)> {
    spans.map_values(|s: RowSpan| (s.text@, s.style))
}

/// Split a row's text into styled spans at the selected range boundaries.
fn split_spans(text: &str, sel: &Vec<(usize, usize, SpanStyle)>) -> (out: Vec<RowSpan>)
    requires
        ranges_wf(sel@, text@.len() as int),
        forall|i: int| 0 <= i < sel@.len() - 1 ==> (#[trigger] sel@[i]).1 <= sel@[i + 1].0,
    ensures
        row_spans_view(out@) == split_spans_spec(text@, sel@, 0, 0),
{
    let mut out: Vec<RowSpan> = Vec::new();
    let n = text.unicode_len();
    let mut pos: usize = 0;
    let mut i: usize = 0;
    while i < sel.len()
        invariant
            n == text@.len(),
            ranges_wf(sel@, n as int),
            forall|k: int| 0 <= k < sel@.len() - 1 ==> (#[trigger] sel@[k]).1 <= sel@[k + 1].0,
            0 <= i <= sel@.len(),
            i < sel@.len() ==> pos <= sel@[i as int].0,
            pos <= n,
            split_spans_spec(text@, sel@, 0, 0) == row_spans_view(out@) + split_spans_spec(
                text@,
                sel@,
                i as int,
                pos as int,
            ),
        decreases sel@.len() - i,
    {
        let ghost out_pre = out@;
        let r = sel[i];
        if pos < r.0 {
            let gap = text.substring_char(pos, r.0).to_owned();
            out.push(RowSpan { text: gap, style: SpanStyle::Plain });
            proof {
                assert(row_spans_view(out@) =~= row_spans_view(out_pre).push(
                    (text@.subrange(pos as int, r.0 as int), SpanStyle::Plain),
                ));
            }
        }
        let ghost out_mid = out@;
        let piece = text.substring_char(r.0, r.1).to_owned();
        out.push(RowSpan { text: piece, style: r.2 });
        pos = r.1;
        i += 1;
        proof {
            assert(row_spans_view(out@) =~= row_spans_view(out_mid).push(
                (text@.subrange(r.0 as int, r.1 as int), r.2),
            ));
            assert(split_spans_spec(text@, sel@, 0, 0) =~= row_spans_view(out@)
                + split_spans_spec(text@, sel@, i as int, pos as int));
        }
    }
    if pos < n {
        let ghost out_pre = out@;
        let rest = text.substring_char(pos, n).to_owned();
        out.push(RowSpan { text: rest, style: SpanStyle::Plain });
        proof {
            assert(row_spans_view(out@) =~= row_spans_view(out_pre).push(
                (text@.subrange(pos as int, n as int), SpanStyle::Plain),
            ));
            assert(split_spans_spec(text@, sel@, sel@.len() as int, pos as int) =~= seq![
                (text@.subrange(pos as int, n as int), SpanStyle::Plain),
            ]);
            assert(split_spans_spec(text@, sel@, 0, 0) =~= row_spans_view(out@));
        }
    } else {
        proof {
            assert(split_spans_spec(text@, sel@, sel@.len() as int, pos as int) =~= Seq::empty());
            assert(split_spans_spec(text@, sel@, 0, 0) =~= row_spans_view(out@));
        }
    }
    out
}

/// Integer-valued view of a tagged range list.
pub open spec fn triples_view(v: Seq<(usize, usize, SpanStyle)>) -> Seq<(int, int, SpanStyle)> {
    v.map_values(|t: (usize, usize, SpanStyle)| (t.0 as int, t.1 as int, t.2))
}

/// A pattern's match ranges, each tagged with one style.
pub open spec fn tag_ranges(rs: Seq<(int, int)>, style: SpanStyle) -> Seq<(int, int, SpanStyle)> {
    rs.map_values(|r: (int, int)| (r.0, r.1, style))
}

/// The match ranges of the first `h` highlight patterns over a text, tagged
/// with their palette colors, in order.
pub open spec fn hl_ranges_upto(
    text: Seq<char>,
    highlights: Seq<(Pattern, usize)>,
    h: int,
) -> Seq<(int, int, SpanStyle)>
    decreases h,
    when 0 <= h <= highlights.len()
{
    if h <= 0 {
        Seq::empty()
    } else {
        hl_ranges_upto(text, highlights, h - 1) + tag_ranges(
            regex_ci_ranges(highlights[h - 1].0@, text),
            SpanStyle::Highlight(highlights[h - 1].1),
        )
    }
}

/// Every match range the patterns produce over a text: the search pattern's
/// ranges tagged for inversion, then each highlight pattern's ranges tagged
/// with its color, in insertion order.
pub open spec fn collected_ranges_spec(
    text: Seq<char>,
    search: Option<Pattern>,
    highlights: Seq<(Pattern, usize)>,
) -> Seq<(int, int, SpanStyle)> {
    (match search {
        Some(p) => tag_ranges(regex_ci_ranges(p@, text), SpanStyle::Search),
        None => Seq::empty(),
    }) + hl_ranges_upto(text, highlights, highlights.len() as int)
}

/// The match ranges of the search pattern and every highlight pattern over a
/// row's text, each tagged with its style, before sorting.
fn collect_ranges(
    text: &str,
    search: &Option<Pattern>,
    highlights: &Vec<(Pattern, usize)>,
) -> (out: Vec<(usize, usize, SpanStyle)>)
    ensures
        ranges_wf(out@, text@.len() as int),
        triples_view(out@) == collected_ranges_spec(text@, *search, highlights@),
{
    let mut out: Vec<(usize, usize, SpanStyle)> = Vec::new();
    match search {
        Some(p) => {
            let rs = pattern_find_ranges(p, text);
            let ghost search_part = tag_ranges(regex_ci_ranges(p@, text@), SpanStyle::Search);
            let mut k: usize = 0;
            while k < rs.len()
                invariant
                    forall|t: int|
                        0 <= t < rs@.len() ==> ((#[trigger] rs@[t]).0 <= rs@[t].1 && rs@[t].1
                            <= text@.len()),
                    ranges_wf(out@, text@.len() as int),
                    0 <= k <= rs@.len(),
                    search_part == tag_ranges(regex_ci_ranges(p@, text@), SpanStyle::Search),
                    rs@.map_values(|r: (usize, usize)| (r.0 as int, r.1 as int))
                        == regex_ci_ranges(p@, text@),
                    *search == Some(*p),
                    triples_view(out@) =~= search_part.subrange(0, k as int),
                decreases rs@.len() - k,
            {
                let r = rs[k];
                let ghost before = out@;
                proof {
                    assert(rs@[k as int].0 <= rs@[k as int].1 <= text@.len());
                }
                out.push((r.0, r.1, SpanStyle::Search));
                proof {
                    assert(triples_view(out@) =~= triples_view(before).push(
                        (r.0 as int, r.1 as int, SpanStyle::Search),
                    ));
                    assert(search_part[k as int] == (r.0 as int, r.1 as int, SpanStyle::Search));
                    assert(triples_view(out@) =~= search_part.subrange(0, k + 1));
                }
                k += 1;
            }
            proof {
                assert(search_part.subrange(0, search_part.len() as int) =~= search_part);
            }
        },
        None => {},
    }
    let ghost prefix = triples_view(out@);
    proof {
        assert(prefix =~= (match *search {
            Some(p) => tag_ranges(regex_ci_ranges(p@, text@), SpanStyle::Search),
            None => Seq::<(int, int, SpanStyle)>::empty(),
        }));
        assert(prefix + hl_ranges_upto(text@, highlights@, 0) =~= prefix);
    }
    let mut h: usize = 0;
    while h < highlights.len()
        invariant
            ranges_wf(out@, text@.len() as int),
            0 <= h <= highlights@.len(),
            triples_view(out@) == prefix + hl_ranges_upto(text@, highlights@, h as int),
        decreases highlights@.len() - h,
    {
        let rs = pattern_find_ranges(&highlights[h].0, text);
        let color = highlights[h].1;
        let ghost hl_part = tag_ranges(
            regex_ci_ranges(highlights@[h as int].0@, text@),
            SpanStyle::Highlight(color),
        );
        let ghost base = triples_view(out@);
        let mut k: usize = 0;
        while k < rs.len()
            invariant
                forall|t: int|
                    0 <= t < rs@.len() ==> ((#[trigger] rs@[t]).0 <= rs@[t].1 && rs@[t].1
                        <= text@.len()),
                ranges_wf(out@, text@.len() as int),
                0 <= k <= rs@.len(),
                h < highlights@.len(),
                color == highlights@[h as int].1,
                hl_part == tag_ranges(
                    regex_ci_ranges(highlights@[h as int].0@, text@),
                    SpanStyle::Highlight(color),
                ),
                rs@.map_values(|r: (usize, usize)| (r.0 as int, r.1 as int)) == regex_ci_ranges(
                    highlights@[h as int].0@,
                    text@,
                ),
                triples_view(out@) =~= base + hl_part.subrange(0, k as int),
            decreases rs@.len() - k,
        {
            let r = rs[k];
            let ghost before = out@;
            proof {
                assert(rs@[k as int].0 <= rs@[k as int].1 <= text@.len());
            }
            out.push((r.0, r.1, SpanStyle::Highlight(color)));
            proof {
                assert(triples_view(out@) =~= triples_view(before).push(
                    (r.0 as int, r.1 as int, SpanStyle::Highlight(color)),
                ));
                assert(hl_part[k as int] == (r.0 as int, r.1 as int, SpanStyle::Highlight(color)));
                assert(triples_view(out@) =~= base + hl_part.subrange(0, k + 1));
            }
            k += 1;
        }
        proof {
            assert(hl_part.subrange(0, hl_part.len() as int) =~= hl_part);
            assert(triples_view(out@) =~= prefix + hl_ranges_upto(text@, highlights@, h + 1));
        }
        h += 1;
    }
    proof {
        assert(triples_view(out@) =~= collected_ranges_spec(text@, *search, highlights@));
    }
    out
}

/// The span-splitting relation: the spans are the text split at the ranges
/// that survive the greedy overlap removal over the stable
/// `(start, longest first)` ordering of exactly the patterns' match ranges.
/// The collected range list is unique (its integer view pins it), so the
/// spans are determined up to that view.
pub open spec fn highlight_spans_rel(
    text: Seq<char>,
    search: Option<Pattern>,
    highlights: Seq<(Pattern, usize)>,
    out: Seq<RowSpan>,
) -> bool {
    exists|collected: Seq<(usize, usize, SpanStyle)>|
        {
            &&& #[trigger] triples_view(collected) == collected_ranges_spec(
                text,
                search,
                highlights,
            )
            &&& row_spans_view(out) == split_spans_spec(
                text,
                greedy_select(stable_sort_ranges(collected), 0, 0),
                0,
                0,
            )
        }
}

/// Split a row's display text into styled spans: collect the search and
/// highlight match ranges, order them by `(start, longest first)` keeping
/// equal keys in collected order, greedily drop ranges that overlap an
/// earlier accepted one, and emit the text as base-styled gaps around
/// styled matches. The spans always concatenate back to the display text.
pub fn highlight_spans(
    text: &str,
    search: &Option<Pattern>,
    highlights: &Vec<(Pattern, usize)>,
) -> (out: Vec<RowSpan>)
    ensures
        spans_text(out@) == text@,
        highlight_spans_rel(text@, *search, highlights@, out@),
{
    let collected = collect_ranges(text, search, highlights);
    let sorted = sort_ranges(&collected);
    proof {
        lemma_ranges_wf_multiset(sorted@, collected@, text@.len() as int);
        lemma_greedy_select_props(sorted@, 0, 0, text@.len() as int);
    }
    let selected = greedy_filter(&sorted);
    let out = split_spans(text, &selected);
    proof {
        lemma_split_spans_text(text@, selected@, 0, 0);
        assert(text@.subrange(0, text@.len() as int) =~= text@);
        lemma_spans_text_view(out@);
        assert({
            &&& triples_view(collected@) == collected_ranges_spec(text@, *search, highlights@)
            &&& row_spans_view(out@) == split_spans_spec(
                text@,
                greedy_select(stable_sort_ranges(collected@), 0, 0),
                0,
                0,
            )
        });
    }
    out
}

/// The text a feed row displays before horizontal scroll: the raw line for
/// an Unknown-level entry, else the level tag followed by the message (or
/// the raw line when no message was parsed).
pub open spec fn row_base_text(e: LogEntry) -> Seq<char> {
    if e.level == LogLevel::Unknown {
        e.raw@
    } else {
        level_tag_spec(e.level) + (match opt_view(e.message) {
            Some(m) => m,
            None => e.raw@,
        })
    }
}

/// The trailing continuation marker of a row with attached lines.
pub open spec fn marker_text_spec(n: nat) -> Seq<char> {
    " [+"@ + dec_str(n) + " lines]"@
}

/// Build the styled spans of one feed row: the level-colored display text
/// after horizontal scroll, with either a bold tag split (no active
/// patterns) or search/highlight span splitting, and a trailing dim
/// `[+N lines]` marker whenever continuation lines are attached, even when
/// the scroll has consumed the whole text.
pub fn row_spans(
    entry: &LogEntry,
    h_scroll: usize,
    search: &Option<Pattern>,
    highlights: &Vec<(Pattern, usize)>,
) -> (out: Vec<RowSpan>)
    ensures
        ({
            let disp = skip_chars_spec(row_base_text(*entry), h_scroll as int);
            let has_marker = entry.extra_lines@.len() > 0;
            let main = if has_marker {
                out@.drop_last()
            } else {
                out@
            };
            &&& has_marker ==> out@.len() >= 1 && out@.last().style == SpanStyle::Marker
                && out@.last().text@ == marker_text_spec(entry.extra_lines@.len())
            &&& spans_text(main) == disp
            &&& if disp.len() == 0 {
                main.len() == 1 && main[0].text@.len() == 0 && main[0].style == SpanStyle::Plain
            } else {
                &&& (search is None && highlights@.len() == 0 && entry.level != LogLevel::Unknown
                    && h_scroll < level_tag_spec(entry.level).len()) ==> main.len() == 2
                    && main[0].style == SpanStyle::Tag && main[1].style == SpanStyle::Plain
                &&& (search is Some || highlights@.len() > 0) ==> highlight_spans_rel(
                    disp,
                    *search,
                    highlights@,
                    main,
                )
            }
        }),
{
    let tag = level_tag(entry.level);
    let base: String = if entry.level == LogLevel::Unknown {
        entry.raw.clone()
    } else {
        let mut b = String::from_str(tag);
        match &entry.message {
            Some(m) => b.append(m.as_str()),
            None => b.append(entry.raw.as_str()),
        }
        b
    };
    let display = skip_chars(base.as_str(), h_scroll);
    let dl = display.as_str().unicode_len();
    let ghost disp = display@;
    let mut out: Vec<RowSpan>;
    if dl == 0 {
        out = Vec::new();
        out.push(RowSpan { text: display, style: SpanStyle::Plain });
        proof {
            assert(out@.drop_first().len() == 0);
            assert(spans_text(out@.drop_first()) == Seq::<char>::empty());
            assert(spans_text(out@) =~= disp);
        }
    } else if search.is_none() && highlights.len() == 0 {
        let tl = tag.unicode_len();
        if entry.level != LogLevel::Unknown && h_scroll < tl {
            let tag_vis = tl - h_scroll;
            let cut = if tag_vis <= dl {
                tag_vis
            } else {
                dl
            };
            let first = display.as_str().substring_char(0, cut).to_owned();
            let rest = display.as_str().substring_char(cut, dl).to_owned();
            out = Vec::new();
            out.push(RowSpan { text: first, style: SpanStyle::Tag });
            out.push(RowSpan { text: rest, style: SpanStyle::Plain });
            proof {
                assert(out@.drop_first().drop_first().len() == 0);
                assert(spans_text(out@.drop_first().drop_first()) == Seq::<char>::empty());
                assert(spans_text(out@.drop_first()) =~= disp.subrange(cut as int, dl as int));
                assert(spans_text(out@) =~= disp);
            }
        } else {
            out = Vec::new();
            out.push(RowSpan { text: display, style: SpanStyle::Plain });
            proof {
                assert(out@.drop_first().len() == 0);
                assert(spans_text(out@.drop_first()) == Seq::<char>::empty());
                assert(spans_text(out@) =~= disp);
            }
        }
    } else {
        out = highlight_spans(display.as_str(), search, highlights);
    }
    let ghost main = out@;
    if entry.extra_lines.len() > 0 {
        let mut marker = String::from_str(" [+");
        let cnt = u64_to_string(entry.extra_lines.len() as u64);
        marker.append(cnt.as_str());
        marker.append(" lines]");
        proof {
            assert(marker@ =~= marker_text_spec(entry.extra_lines@.len()));
        }
        out.push(RowSpan { text: marker, style: SpanStyle::Marker });
        proof {
            assert(out@.drop_last() =~= main);
        }
    }
    proof {
        if dl > 0 && (search is Some || highlights@.len() > 0) {
            let c = choose|c: Seq<(usize, usize, SpanStyle)>|
                {
                    &&& #[trigger] triples_view(c) == collected_ranges_spec(
                        disp,
                        *search,
                        highlights@,
                    )
                    &&& row_spans_view(main) == split_spans_spec(
                        disp,
                        greedy_select(stable_sort_ranges(c), 0, 0),
                        0,
                        0,
                    )
                };
            assert(highlight_spans_rel(disp, *search, highlights@, main));
        }
    }
    out
}


/// The pair-form spans' texts, concatenated.
pub open spec fn spans_text_pairs(spans: Seq<(Seq<char>, SpanStyle)>) -> Seq<char>
    decreases spans.len(),
{
    if spans.len() == 0 {
        Seq::empty()
    } else {
        spans[0].0 + spans_text_pairs(spans.drop_first())
    }
}

proof fn lemma_stp_singleton(x: (Seq<char>, SpanStyle))
    ensures
        spans_text_pairs(seq![x]) == x.0,
{
    assert(seq![x].drop_first().len() == 0);
    assert(spans_text_pairs(seq![x].drop_first()) == Seq::<char>::empty());
    assert(spans_text_pairs(seq![x]) =~= x.0);
}

proof fn lemma_stp_concat(a: Seq<(Seq<char>, SpanStyle)>, b: Seq<(Seq<char>, SpanStyle)>)
    ensures
        spans_text_pairs(a + b) == spans_text_pairs(a) + spans_text_pairs(b),
    decreases a.len(),
{
    if a.len() == 0 {
        assert(a + b =~= b);
        assert(spans_text_pairs(a) + spans_text_pairs(b) =~= spans_text_pairs(b));
    } else {
        lemma_stp_concat(a.drop_first(), b);
        assert((a + b).drop_first() =~= a.drop_first() + b);
        assert(spans_text_pairs(a + b) =~= spans_text_pairs(a) + spans_text_pairs(b));
    }
}

proof fn lemma_spans_text_view(spans: Seq<RowSpan>)
    ensures
        spans_text(spans) == spans_text_pairs(row_spans_view(spans)),
    decreases spans.len(),
{
    if spans.len() > 0 {
        lemma_spans_text_view(spans.drop_first());
        assert(row_spans_view(spans).drop_first() =~= row_spans_view(spans.drop_first()));
        assert(spans_text(spans) =~= spans_text_pairs(row_spans_view(spans)));
    }
}

/// Well-formedness of ranges carries over a permutation.
proof fn lemma_ranges_wf_multiset(
    a: Seq<(usize, usize, SpanStyle)>,
    b: Seq<(usize, usize, SpanStyle)>,
    n: int,
)
    requires
        a.to_multiset() == b.to_multiset(),
        ranges_wf(b, n),
    ensures
        ranges_wf(a, n),
{
    broadcast use vstd::seq_lib::group_to_multiset_ensures;

    assert forall|i: int| 0 <= i < a.len() implies (#[trigger] a[i]).0 <= a[i].1 <= n by {
        assert(a.to_multiset().contains(a[i]));
        assert(b.to_multiset().contains(a[i]));
        assert(b.contains(a[i]));
        let j = choose|j: int| 0 <= j < b.len() && b[j] == a[i];
        assert(ranges_wf(b, n) ==> b[j].0 <= b[j].1 <= n);
    }
}

proof fn lemma_greedy_select_props(rs: Seq<(usize, usize, SpanStyle)>, i: int, last_end: int, n: int)
    requires
        0 <= i <= rs.len(),
        ranges_sorted(rs),
        ranges_wf(rs, n),
        last_end >= 0,
    ensures
        ranges_wf(greedy_select(rs, i, last_end), n),
        forall|k: int|
            0 <= k < greedy_select(rs, i, last_end).len() ==> (#[trigger] greedy_select(
                rs,
                i,
                last_end,
            )[k]).0 >= last_end,
        forall|k: int|
            0 <= k < greedy_select(rs, i, last_end).len() - 1 ==> (#[trigger] greedy_select(
                rs,
                i,
                last_end,
            )[k]).1 <= greedy_select(rs, i, last_end)[k + 1].0,
    decreases rs.len() - i,
{
    if i < rs.len() {
        if rs[i].0 >= last_end {
            lemma_greedy_select_props(rs, i + 1, rs[i].1 as int, n);
        } else {
            lemma_greedy_select_props(rs, i + 1, last_end, n);
        }
    }
}

proof fn lemma_split_spans_text(text: Seq<char>, sel: Seq<(usize, usize, SpanStyle)>, i: int, pos: int)
    requires
        0 <= i <= sel.len(),
        0 <= pos <= text.len(),
        ranges_wf(sel, text.len() as int),
        i < sel.len() ==> pos <= sel[i].0,
        forall|k: int| i <= k < sel.len() - 1 ==> (#[trigger] sel[k]).1 <= sel[k + 1].0,
    ensures
        spans_text_pairs(split_spans_spec(text, sel, i, pos)) == text.subrange(
            pos,
            text.len() as int,
        ),
    decreases sel.len() - i,
{
    if i >= sel.len() {
        if pos < text.len() {
            lemma_stp_singleton((text.subrange(pos, text.len() as int), SpanStyle::Plain));
            assert(spans_text_pairs(split_spans_spec(text, sel, i, pos)) =~= text.subrange(
                pos,
                text.len() as int,
            ));
        } else {
            assert(split_spans_spec(text, sel, i, pos).len() == 0);
            assert(spans_text_pairs(split_spans_spec(text, sel, i, pos)) =~= text.subrange(
                pos,
                text.len() as int,
            ));
        }
    } else {
        let r = sel[i];
        lemma_split_spans_text(text, sel, i + 1, r.1 as int);
        let before: Seq<(Seq<char>, SpanStyle)> = if pos < r.0 {
            seq![(text.subrange(pos, r.0 as int), SpanStyle::Plain)]
        } else {
            Seq::empty()
        };
        let piece: Seq<(Seq<char>, SpanStyle)> = seq![
            (text.subrange(r.0 as int, r.1 as int), r.2),
        ];
        let tail = split_spans_spec(text, sel, i + 1, r.1 as int);
        lemma_stp_concat(before + piece, tail);
        lemma_stp_concat(before, piece);
        assert(split_spans_spec(text, sel, i, pos) == (before + piece) + tail);
        if pos < r.0 {
            lemma_stp_singleton((text.subrange(pos, r.0 as int), SpanStyle::Plain));
        } else {
            assert(before.len() == 0);
            assert(spans_text_pairs(before) == Seq::<char>::empty());
        }
        lemma_stp_singleton((text.subrange(r.0 as int, r.1 as int), r.2));
        assert(spans_text_pairs(split_spans_spec(text, sel, i, pos)) =~= text.subrange(
            pos,
            text.len() as int,
        ));
    }
}

} // verus!
