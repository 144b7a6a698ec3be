//! Logs panel: the session log store, its per-category counts and the
//! category filter.

use vstd::prelude::*;

use crate::clock::now_millis;
use crate::rng::random_below;

verus! {

/// Severity of a log line.
#[derive(Clone, Copy, PartialEq, Eq, PartialOrd, Ord, Structural, Debug)]
pub enum LogCategory {
    Info,
    Warn,
    Error,
}

/// Which log lines the stream view shows.
#[derive(Clone, Copy, PartialEq, Eq, Structural, Debug)]
pub enum FilterLogOption {
    All,
    Info,
    Warn,
    Error,
}

/// Columns of the log table.
#[derive(Clone, Copy, PartialEq, Eq, Hash, Debug)]
pub enum LogsColumn {
    Time,
    Category,
    Source,
    Message,
}

/// Events the presentation layer hands back to the panel states.
#[derive(Clone, Copy, PartialEq, Eq, Structural, Debug)]
pub enum TUIEvent {
    /// The operator picked a log filter.
    FilterLogEvent(FilterLogOption),
    /// The operator asked for the consensus dialog.
    OpenConsensusModal,
}

/// One log line.
#[derive(Clone, Debug)]
pub struct LogsItem {
    /// When the line was produced, in milliseconds since the Unix epoch.
    pub time_ms: i64,
    /// Severity of the line.
    pub category: LogCategory,
    /// Who produced the line.
    pub source: String,
    /// The line itself.
    pub message: String,
}

/// The abstract value of a log line.
pub struct LogsItemView {
    pub time_ms: i64,
    pub category: LogCategory,
    pub source: Seq<char>,
    pub message: Seq<char>,
}

impl View for LogsItem {
    type V = LogsItemView;

    open spec fn view(&self) -> LogsItemView {
        LogsItemView {
            time_ms: self.time_ms,
            category: self.category,
            source: self.source@,
            message: self.message@,
        }
    }
}

impl LogsItem {
    /// A copy whose abstract value is the same.
    pub fn duplicate(&self) -> (r: Self)
        ensures
            r@ == self@,
    {
        LogsItem {
            time_ms: self.time_ms,
            category: self.category,
            source: self.source.clone(),
            message: self.message.clone(),
        }
    }
}

/// The abstract values of a store of log lines, in order.
pub open spec fn log_views(s: Seq<LogsItem>) -> Seq<LogsItemView> {
    s.map_values(|e: LogsItem| e@)
}

/// How many of the log lines carry the given severity.
pub open spec fn count_category(s: Seq<LogsItemView>, c: LogCategory) -> int
    decreases s.len(),
{
    if s.len() == 0 {
        0
    } else {
        count_category(s.drop_last(), c) + if s.last().category == c {
            1int
        } else {
            0int
        }
    }
}

/// Whether a line of the given severity passes the filter.
pub open spec fn matches_filter(c: LogCategory, f: FilterLogOption) -> bool {
    match f {
        FilterLogOption::All => true,
        FilterLogOption::Info => c == LogCategory::Info,
        FilterLogOption::Warn => c == LogCategory::Warn,
        FilterLogOption::Error => c == LogCategory::Error,
    }
}

/// The log lines that pass the filter, in their original order.
pub open spec fn filtered(s: Seq<LogsItemView>, f: FilterLogOption) -> Seq<LogsItemView>
    decreases s.len(),
{
    if s.len() == 0 {
        Seq::empty()
    } else {
        filtered(s.drop_last(), f) + if matches_filter(s.last().category, f) {
            seq![s.last()]
        } else {
            Seq::empty()
        }
    }
}

/// State of the logs panel: the lines of this session and the filter the
/// operator picked.
#[derive(Debug)]
pub struct LogsDashboardState {
    logs: Vec<LogsItem>,
    filter_option: FilterLogOption,
}

impl LogsDashboardState {
    /// The lines of this session, in order.
    pub closed spec fn logs(&self) -> Seq<LogsItemView> {
        log_views(self.logs@)
    }

    /// The filter the operator picked.
    pub closed spec fn spec_filter_option(&self) -> FilterLogOption {
        self.filter_option
    }

    /// An empty session showing every line.
    pub fn new() -> (r: Self)
        ensures
            r.logs() =~= Seq::<LogsItemView>::empty(),
            r.spec_filter_option() == FilterLogOption::All,
    {
        LogsDashboardState { logs: Vec::new(), filter_option: FilterLogOption::All }
    }

    /// The severity a demonstration draw maps to.
    pub fn category_from_index(index: u64) -> (r: LogCategory)
        requires
            index < 3,
        ensures
            index == 0 ==> r == LogCategory::Info,
            index == 1 ==> r == LogCategory::Warn,
            index == 2 ==> r == LogCategory::Error,
    {
        if index == 0 {
            LogCategory::Info
        } else if index == 1 {
            LogCategory::Warn
        } else {
            LogCategory::Error
        }
    }

    /// Appends one demonstration line, stamped by the wall clock and with a
    /// severity drawn at random: exactly one line joins the store, its
    /// source and message are fixed, and the filter stays as it was.
    pub fn update_state(&mut self)
        ensures
            final(self).spec_filter_option() == old(self).spec_filter_option(),
            exists|t: i64, c: LogCategory|
                final(self).logs() == old(self).logs().push(
                    LogsItemView {
                        time_ms: t,
                        category: c,
                        source: "Test Source"@,
                        message: "Test Log"@,
                    },
                ),
    {
        let time_ms = now_millis();
        let index = random_below(3);
        let category = Self::category_from_index(index);
        let ghost pre = self.logs();
        let item = LogsItem {
            time_ms,
            category,
            source: String::from_str("Test Source"),
            message: String::from_str("Test Log"),
        };
        let ghost v = item@;
        self.logs.push(item);
        proof {
            assert(self.logs() =~= pre.push(v));
        }
    }

    /// Takes one log line from the feed into the session store; the filter
    /// stays as it was.
    pub fn apply_line(&mut self, line: LogsItem)
        ensures
            final(self).spec_filter_option() == old(self).spec_filter_option(),
            final(self).logs() == old(self).logs().push(line@),
    {
        let ghost pre = self.logs();
        let ghost v = line@;
        self.logs.push(line);
        proof {
            assert(self.logs() =~= pre.push(v));
        }
    }

    /// Takes one presentation event: a filter pick replaces the filter, any
    /// other event changes nothing, and the lines stay as they were.
    pub fn accept_event(&mut self, event: &TUIEvent)
        ensures
            final(self).logs() == old(self).logs(),
            final(self).spec_filter_option() == match *event {
                TUIEvent::FilterLogEvent(f) => f,
                TUIEvent::OpenConsensusModal => old(self).spec_filter_option(),
            },
    {
        match event {
            TUIEvent::FilterLogEvent(f) => {
                self.filter_option = *f;
            },
            TUIEvent::OpenConsensusModal => {},
        }
    }

    /// How many lines of each severity this session holds, as
    /// `(info, warn, error)`.
    pub fn count_by_category(&self) -> (r: (usize, usize, usize))
        ensures
            r.0 == count_category(self.logs(), LogCategory::Info),
            r.1 == count_category(self.logs(), LogCategory::Warn),
            r.2 == count_category(self.logs(), LogCategory::Error),
    {
        let ghost all = self.logs();
        let mut info: usize = 0;
        let mut warn: usize = 0;
        let mut error: usize = 0;
        let mut i: usize = 0;
        while i < self.logs.len()
            invariant
                i <= self.logs@.len(),
                all == log_views(self.logs@),
                info == count_category(all.take(i as int), LogCategory::Info),
                warn == count_category(all.take(i as int), LogCategory::Warn),
                error == count_category(all.take(i as int), LogCategory::Error),
                info + warn + error == i,
            decreases self.logs@.len() - i,
        {
            match self.logs[i].category {
                LogCategory::Info => {
                    info = info + 1;
                },
                LogCategory::Warn => {
                    warn = warn + 1;
                },
                LogCategory::Error => {
                    error = error + 1;
                },
            }
            i += 1;
            proof {
                assert(all.take(i as int).drop_last() =~= all.take(i as int - 1));
            }
        }
        proof {
            assert(all.take(all.len() as int) =~= all);
        }
        (info, warn, error)
    }

    /// The lines the stream view shows: those that pass the filter, in
    /// their original order.
    pub fn filtered_logs(&self) -> (r: Vec<LogsItem>)
        ensures
            log_views(r@) == filtered(self.logs(), self.spec_filter_option()),
    {
        let ghost all = self.logs();
        let ghost f = self.filter_option;
        let mut out: Vec<LogsItem> = Vec::new();
        let mut i: usize = 0;
        while i < self.logs.len()
            invariant
                i <= self.logs@.len(),
                all == log_views(self.logs@),
                f == self.filter_option,
                log_views(out@) == filtered(all.take(i as int), f),
            decreases self.logs@.len() - i,
        {
            let item = &self.logs[i];
            let keep = match (self.filter_option, item.category) {
                (FilterLogOption::All, _) => true,
                (FilterLogOption::Info, LogCategory::Info) => true,
                (FilterLogOption::Warn, LogCategory::Warn) => true,
                (FilterLogOption::Error, LogCategory::Error) => true,
                _ => false,
            };
            let ghost pre_views = log_views(out@);
            let ghost v = item@;
            if keep {
                out.push(item.duplicate());
                proof {
                    assert(log_views(out@) =~= pre_views.push(v));
                }
            }
            i += 1;
            proof {
                assert(all.take(i as int).drop_last() =~= all.take(i as int - 1));
                if matches_filter(v.category, f) {
                    assert(pre_views.push(v) =~= filtered(all.take(i as int - 1), f) + seq![v]);
                }
            }
        }
        proof {
            assert(all.take(all.len() as int) =~= all);
        }
        out
    }
}

} // verus!
