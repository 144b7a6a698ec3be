//! The poll scheduler: the command loop that serializes refresh cycles.
//!
//! At most one refresh cycle is in flight at a time. A command that
//! arrives while a cycle runs is dropped, never queued: the next tick
//! catches up, and no backlog accumulates. The outcome of a cycle is
//! delivered to the presentation layer as one bundle, so no refresh shows
//! a torn mix of panels.

use vstd::prelude::*;

use crate::blockchain::BlockchainDashboardData;
use crate::errors::FetchError;
use crate::mempool::MempoolDashboardData;
use crate::overview::OverviewDashboardData;
use crate::peers::PeersDashboardData;

verus! {

/// The dashboard panels, a closed set.
#[derive(Clone, Copy, PartialEq, Eq, Structural, Debug)]
pub enum PanelKind {
    Overview,
    Blockchain,
    Mempool,
    Peers,
    Logs,
}

impl PanelKind {
    /// The tab position of this panel.
    pub open spec fn spec_tab_index(self) -> int {
        match self {
            PanelKind::Overview => 0,
            PanelKind::Blockchain => 1,
            PanelKind::Mempool => 2,
            PanelKind::Peers => 3,
            PanelKind::Logs => 4,
        }
    }

    /// The tab position of this panel.
    pub fn tab_index(self) -> (r: usize)
        ensures
            r == self.spec_tab_index(),
    {
        match self {
            PanelKind::Overview => 0,
            PanelKind::Blockchain => 1,
            PanelKind::Mempool => 2,
            PanelKind::Peers => 3,
            PanelKind::Logs => 4,
        }
    }

    /// Whether this panel needs a fetch right now: only while it is the
    /// active tab. The visibility flag is read without locking; staleness
    /// of one tick is tolerated by design.
    pub fn should_update(self, current_tab: usize) -> (r: bool)
        ensures
            r == (self.spec_tab_index() == current_tab),
    {
        self.tab_index() == current_tab
    }
}

/// The panels one refresh cycle fetches: of the four panels that poll the
/// node, the one that is the active tab.
pub open spec fn spec_fetch_plan(current_tab: usize) -> Seq<PanelKind> {
    if current_tab == 0 {
        seq![PanelKind::Overview]
    } else if current_tab == 1 {
        seq![PanelKind::Blockchain]
    } else if current_tab == 2 {
        seq![PanelKind::Mempool]
    } else if current_tab == 3 {
        seq![PanelKind::Peers]
    } else {
        Seq::empty()
    }
}

/// The panels one refresh cycle fetches, given the active tab.
pub fn fetch_plan(current_tab: usize) -> (r: Vec<PanelKind>)
    ensures
        r@ == spec_fetch_plan(current_tab),
{
    let mut out: Vec<PanelKind> = Vec::new();
    if current_tab == 0 {
        out.push(PanelKind::Overview);
    } else if current_tab == 1 {
        out.push(PanelKind::Blockchain);
    } else if current_tab == 2 {
        out.push(PanelKind::Mempool);
    } else if current_tab == 3 {
        out.push(PanelKind::Peers);
    }
    proof {
        assert(out@ =~= spec_fetch_plan(current_tab));
    }
    out
}

/// A command to the scheduler's loop.
#[derive(Clone, Copy, PartialEq, Eq, Structural, Debug)]
pub enum SchedulerCommand {
    /// The periodic timer fired.
    Tick,
    /// The operator asked for a refresh; `notify_ui` says whether a
    /// blocking overlay must be dismissed when the result lands.
    ManualRefresh { notify_ui: bool },
}

/// Whether the presentation layer owes the operator a dismissal when the
/// cycle started by this command completes.
pub open spec fn spec_notify_ui(cmd: SchedulerCommand) -> bool {
    match cmd {
        SchedulerCommand::Tick => false,
        SchedulerCommand::ManualRefresh { notify_ui } => notify_ui,
    }
}

/// What one accepted command turns into: which panels to fetch and whether
/// to notify the presentation layer at the end.
#[derive(Clone, Debug)]
pub struct CyclePlan {
    /// The panels this cycle fetches.
    pub panels: Vec<PanelKind>,
    /// Whether a blocking overlay must be dismissed when the result lands.
    pub notify_ui: bool,
}

/// The coordination core: a busy flag that admits at most one refresh
/// cycle at a time.
#[derive(Debug)]
pub struct PollScheduler {
    busy: bool,
}

impl PollScheduler {
    /// Whether a refresh cycle is in flight.
    pub closed spec fn spec_busy(&self) -> bool {
        self.busy
    }

    /// A scheduler with no cycle in flight.
    pub fn new() -> (r: Self)
        ensures
            !r.spec_busy(),
    {
        PollScheduler { busy: false }
    }

    /// Whether a refresh cycle is in flight.
    pub fn is_busy(&self) -> (r: bool)
        ensures
            r == self.spec_busy(),
    {
        self.busy
    }

    /// Accepts or drops one command. While a cycle is in flight the
    /// command is dropped and nothing changes: at most one cycle runs at a
    /// time, and nothing is queued. Otherwise the scheduler becomes busy
    /// and the command turns into the plan for one cycle.
    pub fn begin_cycle(&mut self, cmd: &SchedulerCommand, current_tab: usize) -> (r: Option<
        CyclePlan,
    >)
        ensures
            old(self).spec_busy() ==> r is None && *final(self) == *old(self),
            !old(self).spec_busy() ==> {
                &&& final(self).spec_busy()
                &&& r is Some
                &&& (r->0).panels@ == spec_fetch_plan(current_tab)
                &&& (r->0).notify_ui == spec_notify_ui(*cmd)
            },
    {
        if self.busy {
            return None;
        }
        self.busy = true;
        let notify_ui = match cmd {
            SchedulerCommand::Tick => false,
            SchedulerCommand::ManualRefresh { notify_ui } => *notify_ui,
        };
        Some(CyclePlan { panels: fetch_plan(current_tab), notify_ui })
    }

    /// Marks the cycle in flight as delivered; the next command will be
    /// accepted.
    pub fn finish_cycle(&mut self)
        ensures
            !final(self).spec_busy(),
    {
        self.busy = false;
    }
}

/// The outcome of one refresh cycle, delivered to the presentation layer
/// as one unit. Each panel that was fetched carries its own result:
/// a failing panel reports its error while its siblings still deliver
/// their snapshots.
#[derive(Debug)]
pub struct RefreshBundle {
    /// Result of the overview fetch, if that panel was fetched.
    pub overview: Option<Result<OverviewDashboardData, FetchError>>,
    /// Result of the blockchain fetch, if that panel was fetched.
    pub blockchain: Option<Result<BlockchainDashboardData, FetchError>>,
    /// Result of the mempool fetch, if that panel was fetched.
    pub mempool: Option<Result<MempoolDashboardData, FetchError>>,
    /// Result of the peers fetch, if that panel was fetched.
    pub peers: Option<Result<PeersDashboardData, FetchError>>,
    /// Whether a blocking overlay must be dismissed when this bundle
    /// lands.
    pub notify_ui: bool,
}

impl RefreshBundle {
    /// The error descriptions this bundle carries, in panel order: the
    /// failures are reported alongside the successes, never instead of
    /// them.
    pub open spec fn spec_error_messages(&self) -> Seq<Seq<char>> {
        (match self.overview {
            Some(Err(e)) => seq![e.spec_message()],
            _ => Seq::empty(),
        }) + (match self.blockchain {
            Some(Err(e)) => seq![e.spec_message()],
            _ => Seq::empty(),
        }) + (match self.mempool {
            Some(Err(e)) => seq![e.spec_message()],
            _ => Seq::empty(),
        }) + (match self.peers {
            Some(Err(e)) => seq![e.spec_message()],
            _ => Seq::empty(),
        })
    }

    /// Collects the error descriptions of the failed fetches, in panel
    /// order.
    pub fn error_messages(&self) -> (r: Vec<String>)
        ensures
            r@.map_values(|m: String| m@) == self.spec_error_messages(),
    {
        let mut out: Vec<String> = Vec::new();
        if let Some(Err(e)) = &self.overview {
            out.push(e.message().to_owned());
        }
        if let Some(Err(e)) = &self.blockchain {
            out.push(e.message().to_owned());
        }
        if let Some(Err(e)) = &self.mempool {
            out.push(e.message().to_owned());
        }
        if let Some(Err(e)) = &self.peers {
            out.push(e.message().to_owned());
        }
        proof {
            assert(out@.map_values(|m: String| m@) =~= self.spec_error_messages());
        }
        out
    }
}

} // verus!
