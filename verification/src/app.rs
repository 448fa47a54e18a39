use vstd::prelude::*;
use std::collections::VecDeque;
use crate::entry::LogEntry;
use crate::level::LogLevel;
use crate::pattern::{compile_user_pattern, compiled_pattern_rel, pattern_is_match, regex_ci_match, Pattern};
use crate::text::{contains_spec, contains_str};

verus! {

/// Capacity of the entry ring; the oldest entry is evicted on overflow.
pub const MAX_LOG_LINES: usize = 10000;

/// How many older lines one lazy history load brings in.
pub const HISTORY_CHUNK: usize = 500;

/// Length of the rolling events-per-second window.
pub const EPS_WINDOW_SECS: usize = 60;

/// Size of the highlight color palette, assigned round-robin.
pub const HIGHLIGHT_PALETTE: usize = 4;

/// Time to live of a transient status message, in milliseconds.
pub const STATUS_TTL_MS: u64 = 3000;

#[derive(Debug, Clone, Copy, PartialEq, Eq, Structural)]
pub enum InputMode {
    Normal,
    Filter,
    Search,
    Highlight,
    SavePrompt,
    TimeJump,
}

#[derive(Debug, Clone, Copy, PartialEq, Eq, Structural)]
pub enum ViewMode {
    Feed,
    Detail,
}

/// The whole in-memory state of a session: the bounded entry ring with its
/// session counters, and the view state that selects, filters, searches and
/// highlights it.
pub struct App {
    pub logs: VecDeque<LogEntry>,
    /// Vestigial scroll anchor kept across evictions; the authoritative
    /// cursor is `selected_index`.
    pub scroll_offset: usize,
    /// Cursor position in the filtered visible set, 0-based.
    pub selected_index: usize,
    /// When set, ingest is quiesced: pending lines stay in the channel.
    pub frozen: bool,
    pub error_only: bool,
    pub input_mode: InputMode,
    pub view_mode: ViewMode,
    pub filter_text: String,
    pub filter_pattern: Option<Pattern>,
    pub filename: String,
    /// Entries with level Error or Fatal over the whole session.
    pub error_count: u64,
    /// Entries appended over the whole session, continuations not counted.
    pub total_count: u64,
    pub eps_history: VecDeque<u64>,
    pub current_eps: u64,
    pub eps_counter: u64,
    pub eps_last_tick_ms: u64,
    pub should_quit: bool,
    /// Whether a lazy history handle reports more older lines.
    pub history_has_more: bool,
    pub needs_history_load: bool,
    pub horizontal_scroll: usize,
    /// Set the first time any non-Unknown entry is appended; never reset.
    pub has_structured_logs: bool,
    pub search_text: String,
    pub search_pattern: Option<Pattern>,
    /// Highlight patterns with their palette color indices.
    pub highlights: Vec<(Pattern, usize)>,
    /// In-progress text for the modes other than Filter.
    pub input_buffer: String,
    /// Transient status message and the instant it was set, in milliseconds.
    pub status_message: Option<(String, u64)>,
}

pub open spec fn is_error_like(l: LogLevel) -> bool {
    l == LogLevel::Error || l == LogLevel::Fatal
}

/// A pattern hits an entry when it matches the raw line or any
/// continuation line.
pub open spec fn entry_matches_pattern(p: Seq<char>, e: LogEntry) -> bool {
    regex_ci_match(p, e.raw@) || exists|i: int|
        0 <= i < e.extra_lines@.len() && regex_ci_match(p, e.extra_lines@[i]@)
}

/// The viewport filter predicate: error-only requires an error-like level;
/// a set filter pattern must hit the entry.
pub open spec fn accepts(error_only: bool, fp: Option<Pattern>, e: LogEntry) -> bool {
    &&& error_only ==> is_error_like(e.level)
    &&& match fp {
        Some(p) => entry_matches_pattern(p@, e),
        None => true,
    }
}

/// The indices of the entries among the first `n` that pass the filter, in
/// order.
pub open spec fn vis_of(logs: Seq<LogEntry>, error_only: bool, fp: Option<Pattern>, n: int) -> Seq<
    int,
>
    decreases n,
    when 0 <= n <= logs.len()
{
    if n <= 0 {
        Seq::empty()
    } else {
        vis_of(logs, error_only, fp, n - 1) + if accepts(error_only, fp, logs[n - 1]) {
            seq![n - 1]
        } else {
            Seq::empty()
        }
    }
}

pub proof fn lemma_vis_of_props(logs: Seq<LogEntry>, error_only: bool, fp: Option<Pattern>, n: int)
    requires
        0 <= n <= logs.len(),
    ensures
        vis_of(logs, error_only, fp, n).len() <= n,
        forall|k: int|
            0 <= k < vis_of(logs, error_only, fp, n).len() ==> 0 <= #[trigger] vis_of(
                logs,
                error_only,
                fp,
                n,
            )[k] < n && accepts(error_only, fp, logs[vis_of(logs, error_only, fp, n)[k]]),
        forall|k1: int, k2: int|
            0 <= k1 < k2 < vis_of(logs, error_only, fp, n).len() ==> vis_of(
                logs,
                error_only,
                fp,
                n,
            )[k1] < vis_of(logs, error_only, fp, n)[k2],
        forall|j: int|
            0 <= j < n && accepts(error_only, fp, logs[j]) ==> vis_of(
                logs,
                error_only,
                fp,
                n,
            ).contains(j),
    decreases n,
{
    if n > 0 {
        lemma_vis_of_props(logs, error_only, fp, n - 1);
        let prev = vis_of(logs, error_only, fp, n - 1);
        let cur = vis_of(logs, error_only, fp, n);
        if accepts(error_only, fp, logs[n - 1]) {
            assert(cur == prev + seq![n - 1]);
            assert forall|j: int| 0 <= j < n && accepts(error_only, fp, logs[j]) implies cur.contains(
                j,
            ) by {
                if j == n - 1 {
                    assert(cur[cur.len() - 1] == n - 1);
                } else {
                    assert(prev.contains(j));
                    let i = choose|i: int| 0 <= i < prev.len() && prev[i] == j;
                    assert(cur[i] == j);
                }
            }
        } else {
            assert(cur =~= prev);
            assert forall|j: int| 0 <= j < n && accepts(error_only, fp, logs[j]) implies cur.contains(
                j,
            ) by {
                assert(prev.contains(j));
                let i = choose|i: int| 0 <= i < prev.len() && prev[i] == j;
                assert(cur[i] == j);
            }
        }
    }
}

impl App {
    /// The viewport filter predicate over this state.
    pub open spec fn filter_accepts(&self, e: LogEntry) -> bool {
        accepts(self.error_only, self.filter_pattern, e)
    }

    /// The visible set: indices of the entries that pass the filter.
    pub open spec fn visible_seq(&self) -> Seq<int> {
        vis_of(self.logs@, self.error_only, self.filter_pattern, self.logs@.len() as int)
    }

    pub open spec fn visible_count_spec(&self) -> nat {
        self.visible_seq().len()
    }

    /// The cursor invariant: 0 <= selected_index < max(1, visible count).
    pub open spec fn selection_ok(&self) -> bool {
        if self.visible_count_spec() == 0 {
            self.selected_index == 0
        } else {
            self.selected_index < self.visible_count_spec()
        }
    }

    /// Once a structured entry has arrived, the tail entry stays structured
    /// under appends; this is what lets continuations attach.
    pub open spec fn structured_tail_ok(&self) -> bool {
        self.has_structured_logs ==> self.logs@.len() > 0 && self.logs@.last().level
            != LogLevel::Unknown
    }

    /// The state invariant that every operation preserves.
    pub open spec fn wf(&self) -> bool {
        &&& self.logs@.len() <= MAX_LOG_LINES
        &&& self.error_count <= self.total_count
        &&& self.eps_counter <= self.total_count
        &&& self.eps_history@.len() == EPS_WINDOW_SECS
        &&& forall|i: int|
            0 <= i < self.logs@.len() && #[trigger] self.logs@[i].extra_lines@.len() > 0
                ==> self.logs@[i].level != LogLevel::Unknown
        &&& self.filter_text@.len() == 0 ==> self.filter_pattern is None
        &&& self.search_text@.len() == 0 ==> self.search_pattern is None
    }

    /// The continuation-grouping test of `add_log`.
    pub open spec fn grouping_applies(&self, entry: LogEntry) -> bool {
        &&& self.has_structured_logs
        &&& entry.level == LogLevel::Unknown
        &&& self.logs@.len() > 0
        &&& self.logs@.last().level != LogLevel::Unknown
    }
}

/// The fields `add_log` never touches.
pub open spec fn add_log_keeps_rest(pre: App, post: App) -> bool {
    &&& post.selected_index == pre.selected_index
    &&& post.frozen == pre.frozen
    &&& post.error_only == pre.error_only
    &&& post.input_mode == pre.input_mode
    &&& post.view_mode == pre.view_mode
    &&& post.filter_text == pre.filter_text
    &&& post.filter_pattern == pre.filter_pattern
    &&& post.filename == pre.filename
    &&& post.eps_history == pre.eps_history
    &&& post.current_eps == pre.current_eps
    &&& post.eps_last_tick_ms == pre.eps_last_tick_ms
    &&& post.should_quit == pre.should_quit
    &&& post.history_has_more == pre.history_has_more
    &&& post.needs_history_load == pre.needs_history_load
    &&& post.horizontal_scroll == pre.horizontal_scroll
    &&& post.search_text == pre.search_text
    &&& post.search_pattern == pre.search_pattern
    &&& post.highlights == pre.highlights
    &&& post.input_buffer == pre.input_buffer
    &&& post.status_message == pre.status_message
}

/// The exact effect of one `add_log` call: either the line is grouped onto a
/// structured tail, or it becomes a new entry with counters bumped and the
/// head evicted on overflow.
pub open spec fn add_log_rel(pre: App, entry: LogEntry, post: App) -> bool {
    &&& add_log_keeps_rest(pre, post)
    &&& if pre.grouping_applies(entry) {
        let n = pre.logs@.len() as int;
        &&& post.logs@.len() == n
        &&& post.logs@ == pre.logs@.update(n - 1, post.logs@[n - 1])
        &&& post.logs@[n - 1].raw == pre.logs@[n - 1].raw
        &&& post.logs@[n - 1].level == pre.logs@[n - 1].level
        &&& post.logs@[n - 1].timestamp == pre.logs@[n - 1].timestamp
        &&& post.logs@[n - 1].message == pre.logs@[n - 1].message
        &&& post.logs@[n - 1].metadata == pre.logs@[n - 1].metadata
        &&& post.logs@[n - 1].extra_lines@ == pre.logs@[n - 1].extra_lines@.push(entry.raw)
        &&& post.total_count == pre.total_count
        &&& post.error_count == pre.error_count
        &&& post.eps_counter == pre.eps_counter
        &&& post.has_structured_logs == pre.has_structured_logs
        &&& post.scroll_offset == pre.scroll_offset
    } else {
        &&& post.total_count == pre.total_count + 1
        &&& post.error_count == pre.error_count + if is_error_like(entry.level) {
            1int
        } else {
            0int
        }
        &&& post.eps_counter == pre.eps_counter + 1
        &&& post.has_structured_logs == (pre.has_structured_logs || entry.level
            != LogLevel::Unknown)
        &&& post.logs@ == if pre.logs@.len() >= MAX_LOG_LINES {
            pre.logs@.subrange(1, pre.logs@.len() as int).push(entry)
        } else {
            pre.logs@.push(entry)
        }
        &&& post.scroll_offset == if pre.logs@.len() >= MAX_LOG_LINES && pre.scroll_offset > 0 {
            (pre.scroll_offset - 1) as usize
        } else {
            pre.scroll_offset
        }
    }
}

/// Bounded ring with monotone counters: whatever line arrives, one ingest
/// step keeps the ring at or under its capacity and never decreases a
/// session counter.
pub proof fn lemma_bounded_ring_monotone_counters(pre: App, entry: LogEntry, post: App)
    requires
        add_log_rel(pre, entry, post),
        pre.logs@.len() <= MAX_LOG_LINES,
    ensures
        post.logs@.len() <= MAX_LOG_LINES,
        post.total_count >= pre.total_count,
        post.error_count >= pre.error_count,
{
}

/// Continuation grouping: appending an Unknown-level line to a store whose
/// tail entry is structured attaches the line as the tail's last
/// continuation line; no entry is added and no counter moves.
pub proof fn lemma_continuation_grouping(pre: App, entry: LogEntry, post: App)
    requires
        add_log_rel(pre, entry, post),
        pre.has_structured_logs,
        entry.level == LogLevel::Unknown,
        pre.logs@.len() > 0,
        pre.logs@.last().level != LogLevel::Unknown,
    ensures
        post.logs@.len() == pre.logs@.len(),
        post.logs@.last().level == pre.logs@.last().level,
        post.logs@.last().raw == pre.logs@.last().raw,
        post.logs@.last().extra_lines@ == pre.logs@.last().extra_lines@.push(entry.raw),
        post.logs@.last().extra_lines@.last() == entry.raw,
        post.total_count == pre.total_count,
        post.error_count == pre.error_count,
{
}

/// In a session of appends, once any structured entry has arrived the tail
/// entry is structured, so a later Unknown line always has a structured tail
/// to attach to.
pub proof fn lemma_structured_tail_preserved(pre: App, entry: LogEntry, post: App)
    requires
        add_log_rel(pre, entry, post),
        pre.structured_tail_ok(),
    ensures
        post.structured_tail_ok(),
{
    if pre.grouping_applies(entry) {
    } else {
        if post.has_structured_logs {
            if pre.logs@.len() >= MAX_LOG_LINES {
                assert(post.logs@.last() == entry);
            } else {
                assert(post.logs@.last() == entry);
            }
            if entry.level == LogLevel::Unknown {
                assert(pre.has_structured_logs);
            }
        }
    }
}

proof fn lemma_chain_structured_tail(states: Seq<App>, entries: Seq<LogEntry>, k: int)
    requires
        states.len() == entries.len() + 1,
        forall|i: int|
            0 <= i < entries.len() ==> add_log_rel(states[i], #[trigger] entries[i], states[i + 1]),
        states[0].structured_tail_ok(),
        0 <= k <= entries.len(),
    ensures
        states[k].structured_tail_ok(),
    decreases k,
{
    if k > 0 {
        lemma_chain_structured_tail(states, entries, k - 1);
        lemma_structured_tail_preserved(states[k - 1], entries[k - 1], states[k]);
    }
}

/// Over a whole run of appends: once the stream has turned structured, a
/// final Unknown-level line does not become an entry; after the run the
/// tail entry is still the structured one and carries that line as its last
/// continuation line, and the append moved no counter.
pub proof fn lemma_session_continuation_grouping(states: Seq<App>, entries: Seq<LogEntry>)
    requires
        states.len() == entries.len() + 1,
        entries.len() > 0,
        forall|i: int|
            0 <= i < entries.len() ==> add_log_rel(states[i], #[trigger] entries[i], states[i + 1]),
        states[0].structured_tail_ok(),
        states[entries.len() - 1].has_structured_logs,
        entries.last().level == LogLevel::Unknown,
    ensures
        states.last().logs@.len() > 0,
        states.last().logs@.last().level != LogLevel::Unknown,
        states.last().logs@.last().extra_lines@.len() > 0,
        states.last().logs@.last().extra_lines@.last() == entries.last().raw,
        states.last().total_count == states[entries.len() - 1].total_count,
        states.last().error_count == states[entries.len() - 1].error_count,
{
    let n = entries.len() as int;
    lemma_chain_structured_tail(states, entries, n - 1);
    lemma_continuation_grouping(states[n - 1], entries[n - 1], states[n]);
}

impl App {
    /// A fresh session: empty ring, zero counters, normal feed mode, a
    /// zeroed one-minute EPS window anchored at `now_ms`.
    pub fn new(filename: String, now_ms: u64) -> (app: App)
        ensures
            app.wf(),
            app.logs@.len() == 0,
            app.scroll_offset == 0,
            app.selected_index == 0,
            !app.frozen,
            !app.error_only,
            app.input_mode == InputMode::Normal,
            app.view_mode == ViewMode::Feed,
            app.filter_text@.len() == 0,
            app.filter_pattern is None,
            app.filename == filename,
            app.error_count == 0,
            app.total_count == 0,
            app.eps_history@.len() == EPS_WINDOW_SECS,
            forall|i: int| 0 <= i < app.eps_history@.len() ==> app.eps_history@[i] == 0,
            app.current_eps == 0,
            app.eps_counter == 0,
            app.eps_last_tick_ms == now_ms,
            !app.should_quit,
            !app.history_has_more,
            !app.needs_history_load,
            app.horizontal_scroll == 0,
            !app.has_structured_logs,
            app.search_text@.len() == 0,
            app.search_pattern is None,
            app.highlights@.len() == 0,
            app.input_buffer@.len() == 0,
            app.status_message is None,
            app.selection_ok(),
            app.structured_tail_ok(),
    {
        let mut eps_history: VecDeque<u64> = VecDeque::new();
        let mut i: usize = 0;
        while i < EPS_WINDOW_SECS
            invariant
                0 <= i <= EPS_WINDOW_SECS,
                eps_history@.len() == i,
                forall|k: int| 0 <= k < i ==> eps_history@[k] == 0,
            decreases EPS_WINDOW_SECS - i,
        {
            eps_history.push_back(0);
            i += 1;
        }
        App {
            logs: VecDeque::with_capacity(MAX_LOG_LINES),
            scroll_offset: 0,
            selected_index: 0,
            frozen: false,
            error_only: false,
            input_mode: InputMode::Normal,
            view_mode: ViewMode::Feed,
            filter_text: String::new(),
            filter_pattern: None,
            filename,
            error_count: 0,
            total_count: 0,
            eps_history,
            current_eps: 0,
            eps_counter: 0,
            eps_last_tick_ms: now_ms,
            should_quit: false,
            history_has_more: false,
            needs_history_load: false,
            horizontal_scroll: 0,
            has_structured_logs: false,
            search_text: String::new(),
            search_pattern: None,
            highlights: Vec::new(),
            input_buffer: String::new(),
            status_message: None,
        }
    }

    /// Ingest one parsed entry: group it onto a structured tail when the
    /// stream is structured and the entry has no level, else append it,
    /// bumping the session counters and evicting the head at capacity.
    pub fn add_log(&mut self, entry: LogEntry)
        requires
            old(self).wf(),
            old(self).total_count < u64::MAX,
            entry.extra_lines@.len() == 0,
        ensures
            add_log_rel(*old(self), entry, *final(self)),
            final(self).wf(),
            final(self).logs@.len() <= MAX_LOG_LINES,
            final(self).total_count >= old(self).total_count,
            final(self).error_count >= old(self).error_count,
            old(self).structured_tail_ok() ==> final(self).structured_tail_ok(),
    {
        if entry.level != LogLevel::Unknown {
            self.has_structured_logs = true;
        }
        if self.has_structured_logs && entry.level == LogLevel::Unknown && self.logs.len() > 0 {
            let popped = self.logs.pop_back();
            if let Some(mut last) = popped {
                if last.level != LogLevel::Unknown {
                    last.extra_lines.push(entry.raw);
                    self.logs.push_back(last);
                    proof {
                        assert(self.logs@ =~= old(self).logs@.update(
                            old(self).logs@.len() - 1,
                            self.logs@[old(self).logs@.len() - 1],
                        ));
                    }
                    return ;
                } else {
                    self.logs.push_back(last);
                    proof {
                        assert(self.logs@ =~= old(self).logs@);
                    }
                }
            }
        }
        if entry.level == LogLevel::Error || entry.level == LogLevel::Fatal {
            self.error_count = self.error_count + 1;
        }
        self.total_count = self.total_count + 1;
        self.eps_counter = self.eps_counter + 1;
        if self.logs.len() >= MAX_LOG_LINES {
            let _evicted = self.logs.pop_front();
            if self.scroll_offset > 0 {
                self.scroll_offset = self.scroll_offset - 1;
            }
        }
        self.logs.push_back(entry);
        proof {
            if old(self).structured_tail_ok() {
                lemma_structured_tail_preserved(*old(self), entry, *self);
            }
        }
    }
}

/// The visible set lists, in ascending order, exactly the indices of the
/// entries that the filter predicate accepts.
pub proof fn lemma_visible_set_characterization(app: App)
    ensures
        app.visible_seq().len() <= app.logs@.len(),
        forall|k: int|
            0 <= k < app.visible_seq().len() ==> 0 <= #[trigger] app.visible_seq()[k]
                < app.logs@.len() && app.filter_accepts(app.logs@[app.visible_seq()[k]]),
        forall|k1: int, k2: int|
            0 <= k1 < k2 < app.visible_seq().len() ==> app.visible_seq()[k1]
                < app.visible_seq()[k2],
        forall|j: int|
            0 <= j < app.logs@.len() && app.filter_accepts(app.logs@[j])
                ==> app.visible_seq().contains(j),
{
    lemma_vis_of_props(
        app.logs@,
        app.error_only,
        app.filter_pattern,
        app.logs@.len() as int,
    );
}

/// A pattern hits a visible entry scanning forward cyclically from `start`,
/// first at visible ordinal `(start + k) % |vis|`.
pub open spec fn cyclic_match_from(
    logs: Seq<LogEntry>,
    vis: Seq<int>,
    p: Seq<char>,
    start: int,
    k: int,
) -> Option<int>
    decreases vis.len() - k,
    when 0 <= k <= vis.len() && vis.len() > 0
{
    if k >= vis.len() {
        None
    } else {
        let idx = (start + k) % (vis.len() as int);
        if 0 <= vis[idx] < logs.len() && entry_matches_pattern(p, logs[vis[idx]]) {
            Some(idx)
        } else {
            cyclic_match_from(logs, vis, p, start, k + 1)
        }
    }
}

/// A pattern hits a visible entry scanning backward cyclically from `start`,
/// first at visible ordinal `(start + |vis| - k) % |vis|`.
pub open spec fn cyclic_match_back(
    logs: Seq<LogEntry>,
    vis: Seq<int>,
    p: Seq<char>,
    start: int,
    k: int,
) -> Option<int>
    decreases vis.len() - k,
    when 0 <= k <= vis.len() && vis.len() > 0
{
    if k >= vis.len() {
        None
    } else {
        let idx = (start + vis.len() - k) % (vis.len() as int);
        if 0 <= vis[idx] < logs.len() && entry_matches_pattern(p, logs[vis[idx]]) {
            Some(idx)
        } else {
            cyclic_match_back(logs, vis, p, start, k + 1)
        }
    }
}

/// Whether a time-jump needle hits an entry: a literal substring of the
/// entry's timestamp when one was parsed, else of the raw line.
pub open spec fn time_hit(e: LogEntry, needle: Seq<char>) -> bool {
    match e.timestamp {
        Some(ts) => contains_spec(ts@, needle),
        None => contains_spec(e.raw@, needle),
    }
}

/// The first visible ordinal at or after `j` whose entry the time-jump
/// needle hits.
pub open spec fn first_time_hit(
    logs: Seq<LogEntry>,
    vis: Seq<int>,
    needle: Seq<char>,
    j: int,
) -> Option<int>
    decreases vis.len() - j,
    when 0 <= j <= vis.len()
{
    if j >= vis.len() {
        None
    } else if 0 <= vis[j] < logs.len() && time_hit(logs[vis[j]], needle) {
        Some(j)
    } else {
        first_time_hit(logs, vis, needle, j + 1)
    }
}

/// One step of a batch prepend: push the entry at the head and evict the
/// tail when the ring would exceed its capacity.
pub open spec fn prepend_step(logs: Seq<LogEntry>, e: LogEntry) -> Seq<LogEntry> {
    let pushed = seq![e] + logs;
    if pushed.len() > MAX_LOG_LINES {
        pushed.drop_last()
    } else {
        pushed
    }
}

/// A whole batch prepend: the batch entries walked from the last to the
/// first, each prepended at the head.
pub open spec fn prepend_all(logs: Seq<LogEntry>, entries: Seq<LogEntry>) -> Seq<LogEntry>
    decreases entries.len(),
{
    if entries.len() == 0 {
        logs
    } else {
        prepend_all(prepend_step(logs, entries.last()), entries.drop_last())
    }
}

pub proof fn lemma_prepend_all_props(logs: Seq<LogEntry>, entries: Seq<LogEntry>)
    requires
        logs.len() <= MAX_LOG_LINES,
        forall|i: int|
            0 <= i < logs.len() && #[trigger] logs[i].extra_lines@.len() > 0 ==> logs[i].level
                != LogLevel::Unknown,
        forall|i: int| 0 <= i < entries.len() ==> (#[trigger] entries[i].extra_lines@).len() == 0,
    ensures
        prepend_all(logs, entries).len() <= MAX_LOG_LINES,
        forall|i: int|
            0 <= i < prepend_all(logs, entries).len() && #[trigger] prepend_all(
                logs,
                entries,
            )[i].extra_lines@.len() > 0 ==> prepend_all(logs, entries)[i].level
                != LogLevel::Unknown,
    decreases entries.len(),
{
    if entries.len() > 0 {
        let stepped = prepend_step(logs, entries.last());
        assert(entries.last().extra_lines@.len() == 0);
        assert forall|i: int|
            0 <= i < stepped.len() && #[trigger] stepped[i].extra_lines@.len() > 0 implies stepped[i].level
            != LogLevel::Unknown by {
            if i > 0 {
                assert(stepped[i] == logs[i - 1]);
            }
        }
        lemma_prepend_all_props(stepped, entries.drop_last());
    }
}

/// The fields that no cursor-motion operation touches.
pub open spec fn eq_except_cursor(pre: App, post: App) -> bool {
    &&& post.logs == pre.logs
    &&& post.scroll_offset == pre.scroll_offset
    &&& post.error_only == pre.error_only
    &&& post.input_mode == pre.input_mode
    &&& post.view_mode == pre.view_mode
    &&& post.filter_text == pre.filter_text
    &&& post.filter_pattern == pre.filter_pattern
    &&& post.filename == pre.filename
    &&& post.error_count == pre.error_count
    &&& post.total_count == pre.total_count
    &&& post.eps_history == pre.eps_history
    &&& post.current_eps == pre.current_eps
    &&& post.eps_counter == pre.eps_counter
    &&& post.eps_last_tick_ms == pre.eps_last_tick_ms
    &&& post.should_quit == pre.should_quit
    &&& post.history_has_more == pre.history_has_more
    &&& post.has_structured_logs == pre.has_structured_logs
    &&& post.search_text == pre.search_text
    &&& post.search_pattern == pre.search_pattern
    &&& post.highlights == pre.highlights
    &&& post.input_buffer == pre.input_buffer
    &&& post.status_message == pre.status_message
}

impl App {
    /// Whether the filter predicate accepts this entry.
    pub fn matches_filter(&self, entry: &LogEntry) -> (b: bool)
        ensures
            b == self.filter_accepts(*entry),
    {
        if self.error_only && !(entry.level == LogLevel::Error || entry.level == LogLevel::Fatal) {
            return false;
        }
        match &self.filter_pattern {
            None => true,
            Some(p) => {
                if pattern_is_match(p, entry.raw.as_str()) {
                    return true;
                }
                let n = entry.extra_lines.len();
                let mut i: usize = 0;
                while i < n
                    invariant
                        n == entry.extra_lines@.len(),
                        0 <= i <= n,
                        self.filter_pattern == Some(*p),
                        self.error_only ==> is_error_like(entry.level),
                        !regex_ci_match(p@, entry.raw@),
                        forall|k: int| 0 <= k < i ==> !regex_ci_match(p@, entry.extra_lines@[k]@),
                    decreases n - i,
                {
                    if pattern_is_match(p, entry.extra_lines[i].as_str()) {
                        proof {
                            assert(regex_ci_match(p@, entry.extra_lines@[i as int]@));
                            assert(entry_matches_pattern(p@, *entry));
                        }
                        return true;
                    }
                    i += 1;
                }
                false
            },
        }
    }

    /// The indices of the visible entries, in order.
    pub fn visible_logs(&self) -> (v: Vec<usize>)
        ensures
            v@.map_values(|u: usize| u as int) == self.visible_seq(),
            forall|k: int| 0 <= k < v@.len() ==> (#[trigger] v@[k]) < self.logs@.len(),
            v@.len() == self.visible_count_spec(),
    {
        let mut out: Vec<usize> = Vec::new();
        let n = self.logs.len();
        let mut i: usize = 0;
        while i < n
            invariant
                n == self.logs@.len(),
                0 <= i <= n,
                out@.map_values(|u: usize| u as int) == vis_of(
                    self.logs@,
                    self.error_only,
                    self.filter_pattern,
                    i as int,
                ),
                forall|k: int| 0 <= k < out@.len() ==> (#[trigger] out@[k]) < n,
            decreases n - i,
        {
            let ghost prev = out@.map_values(|u: usize| u as int);
            if self.matches_filter(&self.logs[i]) {
                out.push(i);
                proof {
                    assert(out@.map_values(|u: usize| u as int) =~= prev + seq![i as int]);
                }
            } else {
                proof {
                    assert(vis_of(self.logs@, self.error_only, self.filter_pattern, i + 1)
                        =~= prev);
                }
            }
            i += 1;
        }
        out
    }

    /// How many entries are visible under the current filter.
    pub fn visible_count(&self) -> (c: usize)
        ensures
            c == self.visible_count_spec(),
    {
        let v = self.visible_logs();
        v.len()
    }

    /// Clamp the cursor into the visible set, restoring the selection
    /// invariant after a filter change.
    pub fn clamp_selection(&mut self)
        ensures
            eq_except_cursor(*old(self), *final(self)),
            final(self).frozen == old(self).frozen,
            final(self).needs_history_load == old(self).needs_history_load,
            final(self).horizontal_scroll == old(self).horizontal_scroll,
            final(self).selected_index as int == if old(self).visible_count_spec() == 0 {
                0int
            } else if old(self).selected_index >= old(self).visible_count_spec() {
                old(self).visible_count_spec() - 1
            } else {
                old(self).selected_index as int
            },
            final(self).selection_ok(),
    {
        let count = self.visible_count();
        if count == 0 {
            self.selected_index = 0;
        } else if self.selected_index >= count {
            self.selected_index = count - 1;
        }
    }

    /// Empty the ring and reset the cursor and scroll anchor; the session
    /// counters keep their values.
    pub fn clear_logs(&mut self)
        requires
            old(self).wf(),
        ensures
            final(self).wf(),
            final(self).logs@.len() == 0,
            final(self).scroll_offset == 0,
            final(self).selected_index == 0,
            final(self).selection_ok(),
            final(self).total_count == old(self).total_count,
            final(self).error_count == old(self).error_count,
            final(self).frozen == old(self).frozen,
            final(self).error_only == old(self).error_only,
            final(self).input_mode == old(self).input_mode,
            final(self).view_mode == old(self).view_mode,
            final(self).filter_text == old(self).filter_text,
            final(self).filter_pattern == old(self).filter_pattern,
            final(self).filename == old(self).filename,
            final(self).eps_history == old(self).eps_history,
            final(self).current_eps == old(self).current_eps,
            final(self).eps_counter == old(self).eps_counter,
            final(self).eps_last_tick_ms == old(self).eps_last_tick_ms,
            final(self).should_quit == old(self).should_quit,
            final(self).history_has_more == old(self).history_has_more,
            final(self).needs_history_load == old(self).needs_history_load,
            final(self).horizontal_scroll == old(self).horizontal_scroll,
            final(self).has_structured_logs == old(self).has_structured_logs,
            final(self).search_text == old(self).search_text,
            final(self).search_pattern == old(self).search_pattern,
            final(self).highlights == old(self).highlights,
            final(self).input_buffer == old(self).input_buffer,
            final(self).status_message == old(self).status_message,
    {
        self.logs.clear();
        self.scroll_offset = 0;
        self.selected_index = 0;
    }

    /// Move the cursor one row down, clamped to the end of the visible set.
    pub fn scroll_down(&mut self)
        ensures
            eq_except_cursor(*old(self), *final(self)),
            final(self).frozen == old(self).frozen,
            final(self).needs_history_load == old(self).needs_history_load,
            final(self).horizontal_scroll == old(self).horizontal_scroll,
            final(self).selected_index as int == if old(self).visible_count_spec() > 0 && (old(self).selected_index as int) < old(self).visible_count_spec() - 1 {
                old(self).selected_index + 1
            } else {
                old(self).selected_index as int
            },
            old(self).selection_ok() ==> final(self).selection_ok(),
    {
        let count = self.visible_count();
        if count > 0 && self.selected_index < count - 1 {
            self.selected_index += 1;
        }
    }

    /// Move the cursor one row up; at the top, request a lazy history load
    /// when the history handle reports more.
    pub fn scroll_up(&mut self)
        ensures
            eq_except_cursor(*old(self), *final(self)),
            final(self).frozen == old(self).frozen,
            final(self).horizontal_scroll == old(self).horizontal_scroll,
            final(self).selected_index as int == if old(self).selected_index > 0 {
                old(self).selected_index - 1
            } else {
                0int
            },
            final(self).needs_history_load == (old(self).needs_history_load || (old(self).selected_index == 0 && old(self).history_has_more)),
            old(self).selection_ok() ==> final(self).selection_ok(),
    {
        if self.selected_index > 0 {
            self.selected_index -= 1;
        } else if self.history_has_more {
            self.needs_history_load = true;
        }
    }

    /// Move the cursor a page down, clamped to the end of the visible set.
    pub fn page_down(&mut self, page_size: usize)
        ensures
            eq_except_cursor(*old(self), *final(self)),
            final(self).frozen == old(self).frozen,
            final(self).needs_history_load == old(self).needs_history_load,
            final(self).horizontal_scroll == old(self).horizontal_scroll,
            final(self).selected_index as int == if old(self).visible_count_spec() > 0 {
                if old(self).selected_index + page_size >= old(self).visible_count_spec() {
                    old(self).visible_count_spec() - 1
                } else {
                    old(self).selected_index + page_size
                }
            } else {
                old(self).selected_index as int
            },
            old(self).visible_count_spec() > 0 ==> final(self).selection_ok(),
            old(self).selection_ok() ==> final(self).selection_ok(),
    {
        let count = self.visible_count();
        if count > 0 {
            if self.selected_index >= count - 1 {
                self.selected_index = count - 1;
            } else if page_size >= count - 1 - self.selected_index {
                self.selected_index = count - 1;
            } else {
                self.selected_index += page_size;
            }
        }
    }

    /// Move the cursor a page up; at the top, request a lazy history load
    /// when the history handle reports more.
    pub fn page_up(&mut self, page_size: usize)
        ensures
            eq_except_cursor(*old(self), *final(self)),
            final(self).frozen == old(self).frozen,
            final(self).horizontal_scroll == old(self).horizontal_scroll,
            final(self).selected_index as int == if old(self).selected_index >= page_size {
                old(self).selected_index - page_size
            } else {
                0int
            },
            final(self).needs_history_load == (old(self).needs_history_load || (
            final(self).selected_index == 0 && old(self).history_has_more)),
            old(self).selection_ok() ==> final(self).selection_ok(),
    {
        if self.selected_index >= page_size {
            self.selected_index -= page_size;
        } else {
            self.selected_index = 0;
        }
        if self.selected_index == 0 && self.history_has_more {
            self.needs_history_load = true;
        }
    }

    /// Jump the cursor to the first visible row; request a lazy history load
    /// when the history handle reports more.
    pub fn jump_to_start(&mut self)
        ensures
            eq_except_cursor(*old(self), *final(self)),
            final(self).frozen == old(self).frozen,
            final(self).horizontal_scroll == old(self).horizontal_scroll,
            final(self).selected_index == 0,
            final(self).needs_history_load == (old(self).needs_history_load || old(self).history_has_more),
            old(self).selection_ok() ==> final(self).selection_ok(),
    {
        self.selected_index = 0;
        if self.history_has_more {
            self.needs_history_load = true;
        }
        proof {
            if old(self).selection_ok() {
                assert(self.visible_seq() == old(self).visible_seq());
            }
        }
    }

    /// Jump the cursor to the last visible row.
    pub fn jump_to_end(&mut self)
        ensures
            eq_except_cursor(*old(self), *final(self)),
            final(self).frozen == old(self).frozen,
            final(self).needs_history_load == old(self).needs_history_load,
            final(self).horizontal_scroll == old(self).horizontal_scroll,
            final(self).selected_index as int == if old(self).visible_count_spec() > 0 {
                old(self).visible_count_spec() - 1
            } else {
                old(self).selected_index as int
            },
            old(self).selection_ok() ==> final(self).selection_ok(),
    {
        let count = self.visible_count();
        if count > 0 {
            self.selected_index = count - 1;
        }
    }

    /// Scroll the view 20 characters to the right.
    pub fn scroll_right(&mut self)
        ensures
            eq_except_cursor(*old(self), *final(self)),
            final(self).frozen == old(self).frozen,
            final(self).needs_history_load == old(self).needs_history_load,
            final(self).selected_index == old(self).selected_index,
            final(self).horizontal_scroll as int == if old(self).horizontal_scroll <= usize::MAX
                - 20 {
                old(self).horizontal_scroll + 20
            } else {
                usize::MAX as int
            },
    {
        if self.horizontal_scroll <= usize::MAX - 20 {
            self.horizontal_scroll += 20;
        } else {
            self.horizontal_scroll = usize::MAX;
        }
    }

    /// Recompile the filter pattern from the current filter text: empty text
    /// unsets it, anything else goes through the compile-or-escape rule.
    pub fn update_filter_regex(&mut self)
        ensures
            *final(self) == (App { filter_pattern: final(self).filter_pattern, ..*old(self) }),
            old(self).filter_text@.len() == 0 ==> final(self).filter_pattern is None,
            old(self).filter_text@.len() > 0 ==> compiled_pattern_rel(
                old(self).filter_text@,
                final(self).filter_pattern,
            ),
            old(self).wf() ==> final(self).wf(),
    {
        if self.filter_text.as_str().is_empty() {
            self.filter_pattern = None;
        } else {
            self.filter_pattern = compile_user_pattern(self.filter_text.as_str());
        }
    }

    /// Scroll the view 20 characters to the left, clamped at the start.
    pub fn scroll_left(&mut self)
        ensures
            eq_except_cursor(*old(self), *final(self)),
            final(self).frozen == old(self).frozen,
            final(self).needs_history_load == old(self).needs_history_load,
            final(self).selected_index == old(self).selected_index,
            final(self).horizontal_scroll as int == if old(self).horizontal_scroll >= 20 {
                old(self).horizontal_scroll - 20
            } else {
                0int
            },
    {
        if self.horizontal_scroll >= 20 {
            self.horizontal_scroll -= 20;
        } else {
            self.horizontal_scroll = 0;
        }
    }

    /// Recompile the search pattern from the current search text: empty text
    /// unsets it, anything else goes through the compile-or-escape rule.
    pub fn update_search_regex(&mut self)
        ensures
            *final(self) == (App { search_pattern: final(self).search_pattern, ..*old(self) }),
            old(self).search_text@.len() == 0 ==> final(self).search_pattern is None,
            old(self).search_text@.len() > 0 ==> compiled_pattern_rel(
                old(self).search_text@,
                final(self).search_pattern,
            ),
            old(self).wf() ==> final(self).wf(),
    {
        if self.search_text.as_str().is_empty() {
            self.search_pattern = None;
        } else {
            self.search_pattern = compile_user_pattern(self.search_text.as_str());
        }
    }

    fn search_scan_next(&self) -> (r: Option<usize>)
        requires
            self.wf(),
        ensures
            match self.search_pattern {
                None => r is None,
                Some(p) => if self.visible_count_spec() == 0 {
                    r is None
                } else {
                    match cyclic_match_from(
                        self.logs@,
                        self.visible_seq(),
                        p@,
                        self.selected_index + 1,
                        0,
                    ) {
                        Some(i) => 0 <= i <= usize::MAX && r == Some(i as usize) && i
                            < self.visible_count_spec(),
                        None => r is None,
                    }
                },
            },
    {
        match &self.search_pattern {
            None => None,
            Some(p) => {
                let visible = self.visible_logs();
                let n = visible.len();
                if n == 0 {
                    return None;
                }
                proof {
                    lemma_vis_of_props(
                        self.logs@,
                        self.error_only,
                        self.filter_pattern,
                        self.logs@.len() as int,
                    );
                }
                let start = self.selected_index % n + 1;
                let ghost vis = self.visible_seq();
                let mut k: usize = 0;
                while k < n
                    invariant
                        self.wf(),
                        n == visible@.len(),
                        n > 0,
                        n == self.visible_count_spec(),
                        vis == self.visible_seq(),
                        visible@.map_values(|u: usize| u as int) == vis,
                        forall|t: int| 0 <= t < n ==> (#[trigger] visible@[t]) < self.logs@.len(),
                        self.search_pattern == Some(*p),
                        start as int == self.selected_index as int % (n as int) + 1,
                        start <= n,
                        n <= self.logs@.len(),
                        0 <= k <= n,
                        cyclic_match_from(self.logs@, vis, p@, self.selected_index as int + 1, 0)
                            == cyclic_match_from(
                            self.logs@,
                            vis,
                            p@,
                            self.selected_index as int + 1,
                            k as int,
                        ),
                    decreases n - k,
                {
                    let idx = (start + k) % n;
                    proof {
                        let s = self.selected_index as int;
                        let m = n as int;
                        let kk = k as int;
                        vstd::arithmetic::div_mod::lemma_mod_bound(s, m);
                        vstd::arithmetic::div_mod::lemma_add_mod_noop(s, 1 + kk, m);
                        vstd::arithmetic::div_mod::lemma_add_mod_noop(s % m, 1 + kk, m);
                        vstd::arithmetic::div_mod::lemma_small_mod(((s % m)) as nat, m as nat);
                        assert(idx as int == (s + 1 + kk) % m);
                    }
                    let li = visible[idx];
                    if entry_matches(p, &self.logs[li]) {
                        return Some(idx);
                    }
                    k += 1;
                }
                None
            },
        }
    }

    fn search_scan_prev(&self) -> (r: Option<usize>)
        requires
            self.wf(),
        ensures
            match self.search_pattern {
                None => r is None,
                Some(p) => if self.visible_count_spec() == 0 {
                    r is None
                } else {
                    match cyclic_match_back(
                        self.logs@,
                        self.visible_seq(),
                        p@,
                        if self.selected_index == 0 {
                            self.visible_count_spec() - 1
                        } else {
                            self.selected_index - 1
                        },
                        0,
                    ) {
                        Some(i) => 0 <= i <= usize::MAX && r == Some(i as usize) && i
                            < self.visible_count_spec(),
                        None => r is None,
                    }
                },
            },
    {
        match &self.search_pattern {
            None => None,
            Some(p) => {
                let visible = self.visible_logs();
                let n = visible.len();
                if n == 0 {
                    return None;
                }
                proof {
                    lemma_vis_of_props(
                        self.logs@,
                        self.error_only,
                        self.filter_pattern,
                        self.logs@.len() as int,
                    );
                }
                let start = if self.selected_index == 0 {
                    n - 1
                } else {
                    (self.selected_index - 1) % n
                };
                let ghost sspec = if self.selected_index == 0 {
                    self.visible_count_spec() - 1
                } else {
                    self.selected_index - 1
                };
                let ghost vis = self.visible_seq();
                let mut k: usize = 0;
                while k < n
                    invariant
                        self.wf(),
                        n == visible@.len(),
                        n > 0,
                        n == self.visible_count_spec(),
                        vis == self.visible_seq(),
                        visible@.map_values(|u: usize| u as int) == vis,
                        forall|t: int| 0 <= t < n ==> (#[trigger] visible@[t]) < self.logs@.len(),
                        self.search_pattern == Some(*p),
                        sspec == if self.selected_index == 0 {
                            self.visible_count_spec() - 1
                        } else {
                            self.selected_index - 1
                        },
                        start as int == if self.selected_index == 0 {
                            (n - 1) as int
                        } else {
                            (self.selected_index - 1) as int % (n as int)
                        },
                        start < n,
                        n <= self.logs@.len(),
                        0 <= k <= n,
                        cyclic_match_back(self.logs@, vis, p@, sspec, 0) == cyclic_match_back(
                            self.logs@,
                            vis,
                            p@,
                            sspec,
                            k as int,
                        ),
                    decreases n - k,
                {
                    let idx = (start + n - k) % n;
                    proof {
                        let m = n as int;
                        let kk = k as int;
                        vstd::arithmetic::div_mod::lemma_mod_bound(sspec, m);
                        vstd::arithmetic::div_mod::lemma_add_mod_noop(sspec, m - kk, m);
                        vstd::arithmetic::div_mod::lemma_add_mod_noop(sspec % m, m - kk, m);
                        vstd::arithmetic::div_mod::lemma_small_mod(((sspec % m)) as nat, m as nat);
                        if self.selected_index == 0 {
                            vstd::arithmetic::div_mod::lemma_small_mod((n - 1) as nat, n as nat);
                        }
                        assert(start as int == sspec % m);
                        assert(idx as int == (sspec + m - kk) % m);
                    }
                    let li = visible[idx];
                    if entry_matches(p, &self.logs[li]) {
                        return Some(idx);
                    }
                    k += 1;
                }
                None
            },
        }
    }

    /// Move the cursor to the next visible entry that the search pattern
    /// hits, scanning forward cyclically from the row after the cursor; the
    /// cursor stays put when nothing matches.
    pub fn search_next(&mut self)
        requires
            old(self).wf(),
        ensures
            *final(self) == (App { selected_index: final(self).selected_index, ..*old(self) }),
            old(self).selection_ok() ==> final(self).selection_ok(),
            match old(self).search_pattern {
                None => final(self).selected_index == old(self).selected_index,
                Some(p) => if old(self).visible_count_spec() == 0 {
                    final(self).selected_index == old(self).selected_index
                } else {
                    match cyclic_match_from(
                        old(self).logs@,
                        old(self).visible_seq(),
                        p@,
                        old(self).selected_index + 1,
                        0,
                    ) {
                        Some(i) => final(self).selected_index == i,
                        None => final(self).selected_index == old(self).selected_index,
                    }
                },
            },
    {
        let r = self.search_scan_next();
        if let Some(idx) = r {
            self.selected_index = idx;
        }
    }

    /// Move the cursor to the previous visible entry that the search pattern
    /// hits, scanning backward cyclically from the row before the cursor;
    /// the cursor stays put when nothing matches.
    pub fn search_prev(&mut self)
        requires
            old(self).wf(),
        ensures
            *final(self) == (App { selected_index: final(self).selected_index, ..*old(self) }),
            old(self).selection_ok() ==> final(self).selection_ok(),
            match old(self).search_pattern {
                None => final(self).selected_index == old(self).selected_index,
                Some(p) => if old(self).visible_count_spec() == 0 {
                    final(self).selected_index == old(self).selected_index
                } else {
                    match cyclic_match_back(
                        old(self).logs@,
                        old(self).visible_seq(),
                        p@,
                        if old(self).selected_index == 0 {
                            old(self).visible_count_spec() - 1
                        } else {
                            old(self).selected_index - 1
                        },
                        0,
                    ) {
                        Some(i) => final(self).selected_index == i,
                        None => final(self).selected_index == old(self).selected_index,
                    }
                },
            },
    {
        let r = self.search_scan_prev();
        if let Some(idx) = r {
            self.selected_index = idx;
        }
    }

    fn time_scan(&self, needle: &str) -> (r: Option<usize>)
        ensures
            match r {
                Some(j) => first_time_hit(self.logs@, self.visible_seq(), needle@, 0) == Some(
                    j as int,
                ) && j < self.visible_count_spec(),
                None => first_time_hit(self.logs@, self.visible_seq(), needle@, 0) is None,
            },
    {
        let visible = self.visible_logs();
        let n = visible.len();
        let ghost vis = self.visible_seq();
        let mut j: usize = 0;
        while j < n
            invariant
                n == visible@.len(),
                n == self.visible_count_spec(),
                vis == self.visible_seq(),
                visible@.map_values(|u: usize| u as int) == vis,
                forall|t: int| 0 <= t < n ==> (#[trigger] visible@[t]) < self.logs@.len(),
                0 <= j <= n,
                first_time_hit(self.logs@, vis, needle@, 0) == first_time_hit(
                    self.logs@,
                    vis,
                    needle@,
                    j as int,
                ),
            decreases n - j,
        {
            let li = visible[j];
            let e = &self.logs[li];
            let hit = match &e.timestamp {
                Some(ts) => contains_str(ts.as_str(), needle),
                None => contains_str(e.raw.as_str(), needle),
            };
            if hit {
                return Some(j);
            }
            j += 1;
        }
        None
    }

    /// Jump the cursor to the first visible entry whose timestamp (or, when
    /// none was parsed, raw line) contains the needle, and freeze the view
    /// so the stream cannot drift the cursor away; no hit leaves the state
    /// unchanged.
    pub fn jump_to_time(&mut self, needle: &str)
        ensures
            *final(self) == (App {
                selected_index: final(self).selected_index,
                frozen: final(self).frozen,
                ..*old(self)
            }),
            match first_time_hit(old(self).logs@, old(self).visible_seq(), needle@, 0) {
                Some(j) => final(self).selected_index == j && final(self).frozen,
                None => final(self).selected_index == old(self).selected_index && final(self).frozen == old(self).frozen,
            },
            old(self).selection_ok() ==> final(self).selection_ok(),
    {
        let r = self.time_scan(needle);
        if let Some(j) = r {
            self.selected_index = j;
            self.frozen = true;
        }
    }

    /// Record a transient status message, stamped with the given instant.
    pub fn set_status(&mut self, msg: String, now_ms: u64)
        ensures
            *final(self) == (App { status_message: Some((msg, now_ms)), ..*old(self) }),
    {
        self.status_message = Some((msg, now_ms));
    }

    /// Drop the status message once it has outlived its time to live.
    pub fn clear_expired_status(&mut self, now_ms: u64)
        ensures
            *final(self) == (App { status_message: final(self).status_message, ..*old(self) }),
            final(self).status_message == match old(self).status_message {
                Some(sm) => if now_ms > sm.1 && now_ms - sm.1 > STATUS_TTL_MS {
                    None::<(String, u64)>
                } else {
                    old(self).status_message
                },
                None => None::<(String, u64)>,
            },
    {
        let expired = match &self.status_message {
            Some(sm) => now_ms > sm.1 && now_ms - sm.1 > STATUS_TTL_MS,
            None => false,
        };
        if expired {
            self.status_message = None;
        }
    }

    /// Advance the EPS meter: when at least a second has passed since the
    /// last advance, publish the in-progress counter, rotate it into the
    /// one-minute window, and restart the second.
    pub fn tick_eps(&mut self, now_ms: u64)
        requires
            old(self).wf(),
        ensures
            final(self).wf(),
            *final(self) == (App {
                eps_history: final(self).eps_history,
                current_eps: final(self).current_eps,
                eps_counter: final(self).eps_counter,
                eps_last_tick_ms: final(self).eps_last_tick_ms,
                ..*old(self)
            }),
            if now_ms >= old(self).eps_last_tick_ms && now_ms - old(self).eps_last_tick_ms
                >= 1000 {
                &&& final(self).current_eps == old(self).eps_counter
                &&& final(self).eps_history@ == old(self).eps_history@.subrange(
                    1,
                    EPS_WINDOW_SECS as int,
                ).push(old(self).eps_counter)
                &&& final(self).eps_counter == 0
                &&& final(self).eps_last_tick_ms == now_ms
            } else {
                *final(self) == *old(self)
            },
    {
        if now_ms >= self.eps_last_tick_ms && now_ms - self.eps_last_tick_ms >= 1000 {
            self.current_eps = self.eps_counter;
            let _rotated = self.eps_history.pop_front();
            self.eps_history.push_back(self.eps_counter);
            self.eps_counter = 0;
            self.eps_last_tick_ms = now_ms;
        }
    }

    /// Clear all highlights on an empty pattern; otherwise compile the
    /// pattern and add it with the next palette color, dropping it silently
    /// when it compiles neither verbatim nor escaped.
    pub fn add_highlight(&mut self, pattern: &str)
        ensures
            *final(self) == (App { highlights: final(self).highlights, ..*old(self) }),
            pattern@.len() == 0 ==> final(self).highlights@.len() == 0,
            pattern@.len() > 0 ==> ({
                ||| (final(self).highlights@ == old(self).highlights@ && compiled_pattern_rel(
                    pattern@,
                    None::<Pattern>,
                ))
                ||| (final(self).highlights@.len() == old(self).highlights@.len() + 1 && final(self).highlights@.drop_last() == old(self).highlights@ && compiled_pattern_rel(
                    pattern@,
                    Some(final(self).highlights@.last().0),
                ) && final(self).highlights@.last().1 as int == (old(self).highlights@.len()
                    as int) % (HIGHLIGHT_PALETTE as int))
            }),
    {
        if pattern.is_empty() {
            self.highlights.clear();
            return ;
        }
        let color = self.highlights.len() % HIGHLIGHT_PALETTE;
        if let Some(p) = compile_user_pattern(pattern) {
            let ghost before = self.highlights@;
            self.highlights.push((p, color));
            proof {
                assert(self.highlights@.drop_last() =~= before);
            }
        }
    }

    /// Insert a batch of already-parsed older entries at the head, evicting
    /// from the tail past capacity; the cursor advances by the batch size so
    /// it stays on the same logical line.
    pub fn prepend_logs(&mut self, entries: Vec<LogEntry>)
        requires
            old(self).wf(),
            forall|i: int| 0 <= i < entries@.len() ==> (#[trigger] entries@[i].extra_lines@).len() == 0,
            old(self).selected_index + entries@.len() <= usize::MAX,
        ensures
            final(self).wf(),
            *final(self) == (App {
                logs: final(self).logs,
                selected_index: final(self).selected_index,
                ..*old(self)
            }),
            final(self).logs@ == prepend_all(old(self).logs@, entries@),
            final(self).selected_index as int == if entries@.len() == 0 {
                old(self).selected_index as int
            } else {
                old(self).selected_index + entries@.len()
            },
            final(self).total_count == old(self).total_count,
            final(self).error_count == old(self).error_count,
            final(self).logs@.len() <= MAX_LOG_LINES,
    {
        let count = entries.len();
        if count == 0 {
            return ;
        }
        let mut batch = entries;
        let ghost orig = batch@;
        while batch.len() > 0
            invariant
                prepend_all(old(self).logs@, orig) == prepend_all(self.logs@, batch@),
                *self == (App { logs: self.logs, ..*old(self) }),
            decreases batch@.len(),
        {
            let ghost batch_pre = batch@;
            let popped = batch.pop();
            if let Some(e) = popped {
                let ghost logs_pre = self.logs@;
                self.logs.push_front(e);
                if self.logs.len() > MAX_LOG_LINES {
                    let _evicted = self.logs.pop_back();
                }
                proof {
                    assert(self.logs@ == prepend_step(logs_pre, batch_pre.last()));
                }
            }
        }
        self.selected_index = self.selected_index + count;
        proof {
            lemma_prepend_all_props(old(self).logs@, orig);
        }
    }

    /// The visible entries laid out for export: each entry's raw line
    /// followed by its continuation lines, in order.
    pub fn export_lines(&self) -> (v: Vec<String>)
        ensures
            v.deep_view() == export_from(self.logs@, self.visible_seq(), 0),
    {
        let visible = self.visible_logs();
        let n = visible.len();
        let ghost vis = self.visible_seq();
        let mut out: Vec<String> = Vec::new();
        let mut j: usize = 0;
        while j < n
            invariant
                n == visible@.len(),
                vis == self.visible_seq(),
                visible@.map_values(|u: usize| u as int) == vis,
                forall|t: int| 0 <= t < n ==> (#[trigger] visible@[t]) < self.logs@.len(),
                0 <= j <= n,
                out.deep_view() + export_from(self.logs@, vis, j as int) == export_from(
                    self.logs@,
                    vis,
                    0,
                ),
            decreases n - j,
        {
            let li = visible[j];
            let ghost e = self.logs@[li as int];
            let ghost base = out.deep_view();
            out.push(self.logs[li].raw.clone());
            proof {
                assert(out.deep_view() =~= base.push(e.raw@));
            }
            let m = self.logs[li].extra_lines.len();
            let mut k: usize = 0;
            while k < m
                invariant
                    li < self.logs@.len(),
                    e == self.logs@[li as int],
                    m == e.extra_lines@.len(),
                    0 <= k <= m,
                    out.deep_view() == base.push(e.raw@) + e.extra_lines@.map_values(
                        |s: String| s@,
                    ).subrange(0, k as int),
                decreases m - k,
            {
                let ghost mid = out.deep_view();
                out.push(self.logs[li].extra_lines[k].clone());
                proof {
                    assert(out.deep_view() =~= mid.push(e.extra_lines@[k as int]@));
                    assert(out.deep_view() =~= base.push(e.raw@) + e.extra_lines@.map_values(
                        |s: String| s@,
                    ).subrange(0, k + 1));
                }
                k += 1;
            }
            proof {
                assert(e.extra_lines@.map_values(|s: String| s@).subrange(
                    0,
                    e.extra_lines@.len() as int,
                ) =~= e.extra_lines@.map_values(|s: String| s@));
                assert(out.deep_view() =~= base + entry_lines(e));
                assert(base + (entry_lines(e) + export_from(self.logs@, vis, j + 1)) =~= (base
                    + entry_lines(e)) + export_from(self.logs@, vis, j + 1));
            }
            j += 1;
        }
        proof {
            assert(out.deep_view() + export_from(self.logs@, vis, n as int) =~= out.deep_view());
        }
        out
    }
}

/// A pattern hit on one entry: the raw line or any continuation line.
pub fn entry_matches(p: &Pattern, entry: &LogEntry) -> (b: bool)
    ensures
        b == entry_matches_pattern(p@, *entry),
{
    if pattern_is_match(p, entry.raw.as_str()) {
        return true;
    }
    let n = entry.extra_lines.len();
    let mut i: usize = 0;
    while i < n
        invariant
            n == entry.extra_lines@.len(),
            0 <= i <= n,
            !regex_ci_match(p@, entry.raw@),
            forall|k: int| 0 <= k < i ==> !regex_ci_match(p@, entry.extra_lines@[k]@),
        decreases n - i,
    {
        if pattern_is_match(p, entry.extra_lines[i].as_str()) {
            proof {
                assert(regex_ci_match(p@, entry.extra_lines@[i as int]@));
            }
            return true;
        }
        i += 1;
    }
    false
}

/// One entry's export block: the raw line followed by its continuation
/// lines.
pub open spec fn entry_lines(e: LogEntry) -> Seq<Seq<char>> {
    seq![e.raw@] + e.extra_lines@.map_values(|s: String| s@)
}

/// The visible entries from ordinal `j` on, laid out for export.
pub open spec fn export_from(logs: Seq<LogEntry>, vis: Seq<int>, j: int) -> Seq<Seq<char>>
    decreases vis.len() - j,
    when 0 <= j <= vis.len()
{
    if j >= vis.len() {
        Seq::empty()
    } else if 0 <= vis[j] < logs.len() {
        entry_lines(logs[vis[j]]) + export_from(logs, vis, j + 1)
    } else {
        export_from(logs, vis, j + 1)
    }
}

} // verus!
