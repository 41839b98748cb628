//! The Logs page: the client's and the core's log lines and the audit
//! records, each with a keyword filter.

use vstd::prelude::*;
use crate::text::{
    ascii_lowercase, boundary_index, char_index_of, contains_seq, is_boundary, lemma_ascii_lowercase_idempotent,
    lemma_char_index_of, lemma_contains_lowercased, lowercase, lowers_as_ascii, str_contains, to_chars, to_lowercase,
};
use crate::tui::models::AuditRecord;
use crate::tui::nav::{row_above, row_below, selected_as, ListCursor};

verus! {

/// The three tabs of the page.
#[derive(Debug, Clone, Copy, PartialEq, Eq, Structural)]
pub enum LogsTab {
    App,
    Core,
    Audit,
}

impl Default for LogsTab {
    fn default() -> (r: Self)
        ensures
            r == LogsTab::App,
    {
        LogsTab::App
    }
}

/// One log line: its stamp, level, source and text.
#[derive(Debug, Clone)]
pub struct LogLine {
    pub ts: Option<i64>,
    pub level: String,
    pub source: String,
    pub message: String,
}

/// Whether a line shows under a keyword: every line for an empty
/// keyword, else a line whose message, source or level contains the
/// keyword, compared in lowercase.
pub open spec fn line_matches(l: LogLine, needle: Seq<char>) -> bool {
    needle.len() == 0 || contains_seq(lowercase(l.message@), lowercase(needle)) || contains_seq(
        lowercase(l.source@),
        lowercase(needle),
    ) || contains_seq(lowercase(l.level@), lowercase(needle))
}

impl LogLine {
    /// Whether this line shows under the keyword `needle` (see
    /// `line_matches`).
    pub fn matches(&self, needle: &str) -> (r: bool)
        ensures
            r == line_matches(*self, needle@),
    {
        if needle.unicode_len() == 0 {
            return true;
        }
        let n = to_lowercase(needle);
        let m = to_lowercase(self.message.as_str());
        if str_contains(m.as_str(), n.as_str()) {
            return true;
        }
        let s = to_lowercase(self.source.as_str());
        if str_contains(s.as_str(), n.as_str()) {
            return true;
        }
        let l = to_lowercase(self.level.as_str());
        str_contains(l.as_str(), n.as_str())
    }
}

/// Whether the byte at offset `b` of `s` is a colon that starts a
/// character.
pub open spec fn colon_at(s: Seq<char>, b: int) -> bool {
    is_boundary(s, b) && char_index_of(s, b) < s.len() && s[char_index_of(s, b)] == ':'
}

/// Whether a line starts with an `HH:MM:SS`-shaped stamp: its first eight
/// bytes are whole characters and its bytes 2 and 5 are colons.
pub open spec fn has_clock_prefix(s: Seq<char>) -> bool {
    is_boundary(s, 8) && colon_at(s, 2) && colon_at(s, 5)
}

fn colon_at_byte(v: &Vec<char>, b: usize) -> (r: bool)
    ensures
        r == colon_at(v@, b as int),
{
    match boundary_index(v, b) {
        Some(k) => {
            proof {
                lemma_char_index_of(v@, b as int, k as int);
            }
            k < v.len() && v[k] == ':'
        },
        None => false,
    }
}

/// A text log line of `source`: level `info`, the whole line as message,
/// and a stamp (0) when it starts like `HH:MM:SS`.
pub fn parse_text_line(line: String, source: &str) -> (r: LogLine)
    ensures
        r.ts == (if has_clock_prefix(line@) { Some(0i64) } else { None }),
        r.level@ == "info"@,
        r.source@ == source@,
        r.message == line,
{
    let v = to_chars(line.as_str());
    let stamped = match boundary_index(&v, 8) {
        Some(k) => {
            proof {
                lemma_char_index_of(v@, 8, k as int);
            }
            colon_at_byte(&v, 2) && colon_at_byte(&v, 5)
        },
        None => false,
    };
    let mut level = String::new();
    level.append("info");
    let mut src = String::new();
    src.append(source);
    LogLine { ts: if stamped { Some(0) } else { None }, level, source: src, message: line }
}

/// Whether an audit record shows under a keyword: every record when the
/// lowercase keyword is empty, else a record whose lowercase operation
/// contains it.
pub open spec fn audit_matches(r: AuditRecord, needle: Seq<char>) -> bool {
    lowercase(needle).len() == 0 || contains_seq(lowercase(r.op@), lowercase(needle))
}

/// The lines of `s` that match the keyword, in order.
pub open spec fn matching_lines(s: Seq<LogLine>, needle: Seq<char>) -> Seq<LogLine> {
    s.filter(|l: LogLine| line_matches(l, needle))
}

/// The records of `s` that match the keyword, in order.
pub open spec fn matching_records(s: Seq<AuditRecord>, needle: Seq<char>) -> Seq<AuditRecord> {
    s.filter(|r: AuditRecord| audit_matches(r, needle))
}

/// An audit record shows under every keyword that its operation contains
/// as written, capitals included: the keyword is compared in lowercase
/// like the operation. Stated for text whose lowercase is its ASCII
/// lowercase (all ASCII text, as `to_lowercase` ensures).
pub proof fn lemma_audit_shown_verbatim(records: Seq<AuditRecord>, k: Seq<char>, i: int)
    requires
        0 <= i < records.len(),
        lowers_as_ascii(k),
        lowers_as_ascii(records[i].op@),
        contains_seq(records[i].op@, k),
    ensures
        audit_matches(records[i], k),
        matching_records(records, k).contains(records[i]),
{
    lemma_contains_lowercased(records[i].op@, k);
    assert(ascii_lowercase(k).len() == k.len());
    let f = |r: AuditRecord| audit_matches(r, k);
    records.filter_lemma(f);
    assert(f(records[i]));
}

/// The keyword's case does not matter: under a keyword and under the same
/// keyword in lowercase the same audit records show, in the same order.
/// Stated for text whose lowercase is its ASCII lowercase.
pub proof fn lemma_audit_filter_ignores_case(records: Seq<AuditRecord>, k: Seq<char>)
    requires
        lowers_as_ascii(k),
        lowers_as_ascii(ascii_lowercase(k)),
    ensures
        forall|r: AuditRecord| #[trigger] audit_matches(r, k) == audit_matches(r, ascii_lowercase(k)),
        matching_records(records, k) == matching_records(records, ascii_lowercase(k)),
{
    lemma_ascii_lowercase_idempotent(k);
    let p = |r: AuditRecord| audit_matches(r, k);
    let q = |r: AuditRecord| audit_matches(r, ascii_lowercase(k));
    assert(p =~= q);
}

/// A log line shows under every keyword that its message, source or
/// level contains as written, capitals included. Stated for text whose
/// lowercase is its ASCII lowercase.
pub proof fn lemma_line_shown_verbatim(l: LogLine, k: Seq<char>)
    requires
        lowers_as_ascii(k),
        lowers_as_ascii(l.message@),
        lowers_as_ascii(l.source@),
        lowers_as_ascii(l.level@),
        contains_seq(l.message@, k) || contains_seq(l.source@, k) || contains_seq(l.level@, k),
    ensures
        line_matches(l, k),
{
    if contains_seq(l.message@, k) {
        lemma_contains_lowercased(l.message@, k);
    } else if contains_seq(l.source@, k) {
        lemma_contains_lowercased(l.source@, k);
    } else {
        lemma_contains_lowercased(l.level@, k);
    }
}

/// The keyword's case does not matter for log lines either.
pub proof fn lemma_line_filter_ignores_case(lines: Seq<LogLine>, k: Seq<char>)
    requires
        lowers_as_ascii(k),
        lowers_as_ascii(ascii_lowercase(k)),
    ensures
        forall|l: LogLine| #[trigger] line_matches(l, k) == line_matches(l, ascii_lowercase(k)),
        matching_lines(lines, k) == matching_lines(lines, ascii_lowercase(k)),
{
    lemma_ascii_lowercase_idempotent(k);
    assert(ascii_lowercase(k).len() == k.len());
    let p = |l: LogLine| line_matches(l, k);
    let q = |l: LogLine| line_matches(l, ascii_lowercase(k));
    assert(p =~= q);
}

/// The Logs page.
#[derive(Debug)]
pub struct LogsState {
    pub tab: LogsTab,
    pub app_lines: Vec<LogLine>,
    pub core_lines: Vec<LogLine>,
    pub audit_records: Vec<AuditRecord>,
    /// Where the next read of each log continues.
    pub app_cursor: u64,
    pub core_cursor: u64,
    pub audit_cursor: u64,
    pub filter: String,
    /// Selection among the shown lines (App and Core tabs).
    pub lines_state: ListCursor,
    /// Selection among the shown audit records.
    pub table_state: ListCursor,
}

impl LogsState {
    /// An empty page on the App tab.
    pub fn new() -> (r: Self)
        ensures
            r.tab == LogsTab::App,
            r.app_lines@.len() == 0,
            r.core_lines@.len() == 0,
            r.audit_records@.len() == 0,
            r.app_cursor == 0 && r.core_cursor == 0 && r.audit_cursor == 0,
            r.filter@.len() == 0,
            r.lines_state == (ListCursor { selected: None, offset: 0 }),
            r.table_state == (ListCursor { selected: None, offset: 0 }),
    {
        LogsState {
            tab: LogsTab::App,
            app_lines: Vec::new(),
            core_lines: Vec::new(),
            audit_records: Vec::new(),
            app_cursor: 0,
            core_cursor: 0,
            audit_cursor: 0,
            filter: String::new(),
            lines_state: ListCursor::default(),
            table_state: ListCursor::default(),
        }
    }

    /// Switches tab and clears both selections.
    pub fn set_tab(&mut self, tab: LogsTab)
        ensures
            final(self).tab == tab,
            final(self).lines_state == selected_as(old(self).lines_state, None),
            final(self).table_state == selected_as(old(self).table_state, None),
            final(self).app_lines == old(self).app_lines,
            final(self).core_lines == old(self).core_lines,
            final(self).audit_records == old(self).audit_records,
            final(self).filter == old(self).filter,
    {
        self.tab = tab;
        self.lines_state.select(None);
        self.table_state.select(None);
    }

    /// The next tab (App, Core, Audit, and round), selections cleared.
    pub fn next_tab(&mut self)
        ensures
            final(self).tab == match old(self).tab {
                LogsTab::App => LogsTab::Core,
                LogsTab::Core => LogsTab::Audit,
                LogsTab::Audit => LogsTab::App,
            },
            final(self).lines_state == selected_as(old(self).lines_state, None),
            final(self).table_state == selected_as(old(self).table_state, None),
            final(self).filter == old(self).filter,
    {
        let t = match self.tab {
            LogsTab::App => LogsTab::Core,
            LogsTab::Core => LogsTab::Audit,
            LogsTab::Audit => LogsTab::App,
        };
        self.set_tab(t);
    }

    /// Sets the keyword filter.
    pub fn set_filter(&mut self, filter: String)
        ensures
            final(self).filter == filter,
            final(self).tab == old(self).tab,
            final(self).app_lines == old(self).app_lines,
            final(self).core_lines == old(self).core_lines,
            final(self).audit_records == old(self).audit_records,
            final(self).lines_state == old(self).lines_state,
            final(self).table_state == old(self).table_state,
    {
        self.filter = filter;
    }

    fn parse_lines(lines: Vec<String>, source: &str) -> (r: Vec<LogLine>)
        ensures
            r@.len() == lines@.len(),
            forall|i: int|
                0 <= i < lines@.len() ==> {
                    &&& (#[trigger] r@[i]).message == lines@[i]
                    &&& r@[i].source@ == source@
                    &&& r@[i].level@ == "info"@
                    &&& r@[i].ts == (if has_clock_prefix(lines@[i]@) { Some(0i64) } else { None })
                },
    {
        let ghost ls = lines@;
        let mut rest = lines;
        let mut out: Vec<LogLine> = Vec::new();
        let mut k: usize = 0;
        let total: usize = rest.len();
        while rest.len() > 0
            invariant
                k + rest@.len() == total,
                ls.len() == total,
                rest@ == ls.skip(k as int),
                out@.len() == k,
                forall|i: int|
                    0 <= i < k ==> {
                        &&& (#[trigger] out@[i]).message == ls[i]
                        &&& out@[i].source@ == source@
                        &&& out@[i].level@ == "info"@
                        &&& out@[i].ts == (if has_clock_prefix(ls[i]@) { Some(0i64) } else { None })
                    },
            decreases rest@.len(),
        {
            let l = rest.remove(0);
            assert(l == ls[k as int]);
            out.push(parse_text_line(l, source));
            k = k + 1;
            assert(rest@ =~= ls.skip(k as int));
        }
        out
    }

    /// Replaces the client's log lines (a fresh read up to `cursor`).
    pub fn set_app(&mut self, cursor: u64, lines: Vec<String>)
        ensures
            final(self).app_cursor == cursor,
            final(self).app_lines@.len() == lines@.len(),
            forall|i: int|
                0 <= i < lines@.len() ==> {
                    &&& (#[trigger] final(self).app_lines@[i]).message == lines@[i]
                    &&& final(self).app_lines@[i].source@ == "App"@
                    &&& final(self).app_lines@[i].level@ == "info"@
                    &&& final(self).app_lines@[i].ts == (if has_clock_prefix(lines@[i]@) { Some(0i64) } else { None })
                },
            final(self).core_lines == old(self).core_lines,
            final(self).tab == old(self).tab,
    {
        self.app_cursor = cursor;
        self.app_lines = Self::parse_lines(lines, "App");
    }

    /// Replaces the core's log lines (a fresh read up to `cursor`).
    pub fn set_core(&mut self, cursor: u64, lines: Vec<String>)
        ensures
            final(self).core_cursor == cursor,
            final(self).core_lines@.len() == lines@.len(),
            forall|i: int|
                0 <= i < lines@.len() ==> {
                    &&& (#[trigger] final(self).core_lines@[i]).message == lines@[i]
                    &&& final(self).core_lines@[i].source@ == "Core"@
                    &&& final(self).core_lines@[i].level@ == "info"@
                    &&& final(self).core_lines@[i].ts == (if has_clock_prefix(lines@[i]@) { Some(0i64) } else { None })
                },
            final(self).app_lines == old(self).app_lines,
            final(self).tab == old(self).tab,
    {
        self.core_cursor = cursor;
        self.core_lines = Self::parse_lines(lines, "Core");
    }

    /// Replaces the audit records.
    pub fn set_audit(&mut self, cursor: u64, records: Vec<AuditRecord>)
        ensures
            final(self).audit_cursor == cursor,
            final(self).audit_records == records,
            final(self).tab == old(self).tab,
    {
        self.audit_cursor = cursor;
        self.audit_records = records;
    }

    /// The lines of the current tab that match the filter, in order (none
    /// on the Audit tab).
    pub fn visible_lines(&self) -> (r: Vec<&LogLine>)
        ensures
            ({
                let src = match self.tab {
                    LogsTab::App => self.app_lines@,
                    LogsTab::Core => self.core_lines@,
                    LogsTab::Audit => Seq::empty(),
                };
                let m = matching_lines(src, self.filter@);
                &&& r@.len() == m.len()
                &&& forall|i: int| 0 <= i < m.len() ==> *(#[trigger] r@[i]) == m[i]
            }),
    {
        let mut r: Vec<&LogLine> = Vec::new();
        let src: &Vec<LogLine> = match self.tab {
            LogsTab::App => &self.app_lines,
            LogsTab::Core => &self.core_lines,
            LogsTab::Audit => {
                proof {
                    reveal(Seq::filter);
                }
                return r;
            },
        };
        let ghost f = self.filter@;
        let mut i: usize = 0;
        proof {
            reveal(Seq::filter);
            assert(src@.take(0) =~= Seq::<LogLine>::empty());
        }
        while i < src.len()
            invariant
                i <= src@.len(),
                f == self.filter@,
                r@.len() == matching_lines(src@.take(i as int), f).len(),
                forall|k: int|
                    0 <= k < r@.len() ==> *(#[trigger] r@[k]) == matching_lines(src@.take(i as int), f)[k],
            decreases src@.len() - i,
        {
            proof {
                reveal(Seq::filter);
                assert(src@.take(i + 1).drop_last() =~= src@.take(i as int));
                assert(src@.take(i + 1).last() == src@[i as int]);
            }
            if src[i].matches(self.filter.as_str()) {
                r.push(&src[i]);
            }
            i = i + 1;
        }
        assert(src@.take(i as int) =~= src@);
        r
    }

    /// The audit records that match the filter, in order.
    pub fn visible_audit(&self) -> (r: Vec<&AuditRecord>)
        ensures
            ({
                let m = matching_records(self.audit_records@, self.filter@);
                &&& r@.len() == m.len()
                &&& forall|i: int| 0 <= i < m.len() ==> *(#[trigger] r@[i]) == m[i]
            }),
    {
        let needle = to_lowercase(self.filter.as_str());
        let src = &self.audit_records;
        let mut r: Vec<&AuditRecord> = Vec::new();
        let ghost f = self.filter@;
        let mut i: usize = 0;
        proof {
            reveal(Seq::filter);
            assert(src@.take(0) =~= Seq::<AuditRecord>::empty());
        }
        while i < src.len()
            invariant
                i <= src@.len(),
                f == self.filter@,
                needle@ == lowercase(f),
                r@.len() == matching_records(src@.take(i as int), f).len(),
                forall|k: int|
                    0 <= k < r@.len() ==> *(#[trigger] r@[k]) == matching_records(src@.take(i as int), f)[k],
            decreases src@.len() - i,
        {
            proof {
                reveal(Seq::filter);
                assert(src@.take(i + 1).drop_last() =~= src@.take(i as int));
                assert(src@.take(i + 1).last() == src@[i as int]);
            }
            let keep = if needle.as_str().unicode_len() == 0 {
                true
            } else {
                let op = to_lowercase(src[i].op.as_str());
                str_contains(op.as_str(), needle.as_str())
            };
            if keep {
                r.push(&src[i]);
            }
            i = i + 1;
        }
        assert(src@.take(i as int) =~= src@);
        r
    }

    /// How many rows the current tab shows.
    pub open spec fn shown_count(&self) -> int {
        match self.tab {
            LogsTab::Audit => matching_records(self.audit_records@, self.filter@).len() as int,
            LogsTab::App => matching_lines(self.app_lines@, self.filter@).len() as int,
            LogsTab::Core => matching_lines(self.core_lines@, self.filter@).len() as int,
        }
    }

    /// Selects the next shown row of the current tab, wrapping to the
    /// first; nothing happens with no rows.
    pub fn on_down_key(&mut self)
        ensures
            final(self).tab == old(self).tab,
            final(self).filter == old(self).filter,
            old(self).shown_count() == 0 ==> final(self).lines_state == old(self).lines_state
                && final(self).table_state == old(self).table_state,
            old(self).shown_count() > 0 && old(self).tab == LogsTab::Audit ==> final(self).table_state == selected_as(
                old(self).table_state,
                Some(row_below(old(self).table_state.selected, old(self).shown_count()) as usize),
            ) && final(self).lines_state == old(self).lines_state,
            old(self).shown_count() > 0 && old(self).tab != LogsTab::Audit ==> final(self).lines_state == selected_as(
                old(self).lines_state,
                Some(row_below(old(self).lines_state.selected, old(self).shown_count()) as usize),
            ) && final(self).table_state == old(self).table_state,
    {
        let len = self.shown_len();
        if len == 0 {
            return;
        }
        if self.tab == LogsTab::Audit {
            crate::tui::nav::select_below(&mut self.table_state, len);
        } else {
            crate::tui::nav::select_below(&mut self.lines_state, len);
        }
    }

    /// Selects the previous shown row of the current tab, wrapping to the
    /// last (also without a selection); nothing happens with no rows.
    pub fn on_up_key(&mut self)
        ensures
            final(self).tab == old(self).tab,
            final(self).filter == old(self).filter,
            old(self).shown_count() == 0 ==> final(self).lines_state == old(self).lines_state
                && final(self).table_state == old(self).table_state,
            old(self).shown_count() > 0 && old(self).tab == LogsTab::Audit ==> final(self).table_state == selected_as(
                old(self).table_state,
                Some(row_above(old(self).table_state.selected, old(self).shown_count()) as usize),
            ) && final(self).lines_state == old(self).lines_state,
            old(self).shown_count() > 0 && old(self).tab != LogsTab::Audit ==> final(self).lines_state == selected_as(
                old(self).lines_state,
                Some(row_above(old(self).lines_state.selected, old(self).shown_count()) as usize),
            ) && final(self).table_state == old(self).table_state,
    {
        let len = self.shown_len();
        if len == 0 {
            return;
        }
        if self.tab == LogsTab::Audit {
            crate::tui::nav::select_above(&mut self.table_state, len);
        } else {
            crate::tui::nav::select_above(&mut self.lines_state, len);
        }
    }

    fn shown_len(&self) -> (r: usize)
        ensures
            r == self.shown_count(),
    {
        if self.tab == LogsTab::Audit {
            self.visible_audit().len()
        } else {
            self.visible_lines().len()
        }
    }
}

} // verus!
