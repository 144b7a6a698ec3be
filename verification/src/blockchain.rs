//! Blockchain panel: the live feed of new tip blocks, the running cell
//! statistics, and the snapshot fetched on each refresh cycle.

use vstd::prelude::*;

use crate::epoch::{epoch_block_count_of, epoch_block_of, epoch_number_of, extract_epoch, EpochTiming};
use crate::history::{fifo_push, BoundedHistory};

verus! {

/// Capacity of the latest-blocks history.
pub const LATEST_BLOCK_CAPACITY: usize = 10;

/// Capacity of the cell-statistics trend histories.
pub const SAMPLE_HISTORY_CAPACITY: usize = 20;

/// Columns of the latest-blocks table.
#[derive(Clone, Copy, PartialEq, Eq, Hash, Debug)]
pub enum BlockListColumn {
    Time,
    BlockNumber,
    BlockHash,
}

/// Columns of the script-integrity table.
#[derive(Clone, Copy, PartialEq, Eq, Hash, Debug)]
pub enum ScriptColumn {
    Name,
    ScriptType,
    Integrity,
    CodeHash,
}

/// One block as retained in the latest-blocks list.
#[derive(Clone, Debug)]
pub struct BlockListItem {
    /// Timestamp of the block header, in milliseconds.
    pub time_ms: u64,
    /// Height of the block.
    pub block_number: u64,
    /// Hexadecimal hash of the block, as the node sent it.
    pub block_hash: String,
}

/// The abstract value of a retained block.
pub struct BlockListItemView {
    pub time_ms: u64,
    pub block_number: u64,
    pub block_hash: Seq<char>,
}

impl View for BlockListItem {
    type V = BlockListItemView;

    open spec fn view(&self) -> BlockListItemView {
        BlockListItemView {
            time_ms: self.time_ms,
            block_number: self.block_number,
            block_hash: self.block_hash@,
        }
    }
}

impl BlockListItem {
    /// A copy whose abstract value is the same.
    pub fn duplicate(&self) -> (r: Self)
        ensures
            r@ == self@,
    {
        BlockListItem {
            time_ms: self.time_ms,
            block_number: self.block_number,
            block_hash: self.block_hash.clone(),
        }
    }
}

/// Running state of the new-tip-block feed: the bounded history of the most
/// recent blocks. The subscription worker is its sole writer.
#[derive(Debug)]
pub struct ChainFeed {
    latest_blocks: BoundedHistory<BlockListItem>,
}

impl ChainFeed {
    /// The retained latest blocks, oldest first.
    pub closed spec fn blocks(&self) -> Seq<BlockListItemView> {
        self.latest_blocks@.map_values(|e: BlockListItem| e@)
    }

    /// The invariant of the feed: the history stays within its capacity.
    pub closed spec fn well_formed(&self) -> bool {
        &&& self.latest_blocks.well_formed()
        &&& self.latest_blocks.spec_capacity() == LATEST_BLOCK_CAPACITY
    }

    /// A fresh feed with no blocks retained.
    pub fn new() -> (r: Self)
        ensures
            r.well_formed(),
            r.blocks() =~= Seq::<BlockListItemView>::empty(),
    {
        ChainFeed { latest_blocks: BoundedHistory::new(LATEST_BLOCK_CAPACITY) }
    }

    /// Takes one new-tip-block event into the bounded history; beyond
    /// capacity the oldest block leaves.
    pub fn apply_block(&mut self, block_number: u64, block_hash: String, timestamp_ms: u64)
        requires
            old(self).well_formed(),
        ensures
            final(self).well_formed(),
            final(self).blocks() == fifo_push(
                old(self).blocks(),
                LATEST_BLOCK_CAPACITY as nat,
                BlockListItemView {
                    time_ms: timestamp_ms,
                    block_number: block_number,
                    block_hash: block_hash@,
                },
            ),
    {
        let ghost pre = self.blocks();
        let item = BlockListItem { time_ms: timestamp_ms, block_number, block_hash };
        let ghost v = item@;
        self.latest_blocks.push(item);
        proof {
            assert(self.blocks() =~= fifo_push(pre, LATEST_BLOCK_CAPACITY as nat, v));
        }
    }

    /// A consistent copy of the retained blocks, oldest first.
    pub fn read_blocks(&self) -> (r: Vec<BlockListItem>)
        ensures
            r@.map_values(|e: BlockListItem| e@) == self.blocks(),
    {
        let src = self.latest_blocks.as_slice();
        let mut out: Vec<BlockListItem> = Vec::new();
        let mut i: usize = 0;
        while i < src.len()
            invariant
                i <= src.len(),
                src@ == self.latest_blocks@,
                out@.len() == i,
                forall|k: int| 0 <= k < i ==> #[trigger] out@[k]@ == src@[k]@,
            decreases src.len() - i,
        {
            out.push(src[i].duplicate());
            i += 1;
        }
        proof {
            assert(out@.map_values(|e: BlockListItem| e@) =~= self.blocks());
        }
        out
    }
}

/// Largest and smallest value seen so far, kept only to scale chart
/// rendering. Monotonic since construction: the maximum never falls, the
/// minimum never rises.
#[derive(Clone, Copy, PartialEq, Eq, Structural, Debug)]
pub struct RunningExtrema {
    /// Largest value observed; zero before the first observation.
    pub max_seen: u64,
    /// Smallest value observed; the counter ceiling before the first
    /// observation.
    pub min_seen: u64,
}

impl RunningExtrema {
    /// Extrema that any first observation will replace.
    pub fn new() -> (r: Self)
        ensures
            r.max_seen == 0,
            r.min_seen == u64::MAX,
    {
        RunningExtrema { max_seen: 0, min_seen: u64::MAX }
    }

    /// Takes one value into the extrema.
    pub fn observe(&mut self, value: u64)
        ensures
            final(self).max_seen == if value > old(self).max_seen {
                value
            } else {
                old(self).max_seen
            },
            final(self).min_seen == if value < old(self).min_seen {
                value
            } else {
                old(self).min_seen
            },
    {
        if value > self.max_seen {
            self.max_seen = value;
        }
        if value < self.min_seen {
            self.min_seen = value;
        }
    }
}

/// Running cell statistics of the blockchain panel, refreshed once per tick
/// of the continuous loop: current values, their extrema, and the bounded
/// trend histories behind the two sparklines.
#[derive(Debug)]
pub struct GetOverviewOfBlockchainDasboardState {
    /// Trend of the live-cell estimate, behind its sparkline.
    pub live_cells_history: BoundedHistory<u64>,
    /// Extrema of the live-cell estimate.
    pub live_cells_extrema: RunningExtrema,
    /// Latest live-cell estimate.
    pub live_cells: u64,
    /// Trend of the occupied capacity, behind its sparkline.
    pub occupied_capacity_history: BoundedHistory<u64>,
    /// Extrema of the occupied capacity.
    pub occupied_capacity_extrema: RunningExtrema,
    /// Latest occupied capacity.
    pub occupied_capacity: u64,
}

impl GetOverviewOfBlockchainDasboardState {
    /// The live-cell trend, oldest first.
    pub closed spec fn live_cells_trend(&self) -> Seq<u64> {
        self.live_cells_history@
    }

    /// The occupied-capacity trend, oldest first.
    pub closed spec fn occupied_capacity_trend(&self) -> Seq<u64> {
        self.occupied_capacity_history@
    }

    /// The invariant of the statistics: both histories stay within the
    /// trend capacity.
    pub closed spec fn well_formed(&self) -> bool {
        &&& self.live_cells_history.well_formed()
        &&& self.live_cells_history.spec_capacity() == SAMPLE_HISTORY_CAPACITY
        &&& self.occupied_capacity_history.well_formed()
        &&& self.occupied_capacity_history.spec_capacity() == SAMPLE_HISTORY_CAPACITY
    }

    /// Fresh statistics with empty trends.
    pub fn new() -> (r: Self)
        ensures
            r.well_formed(),
            r.live_cells_trend() =~= Seq::<u64>::empty(),
            r.occupied_capacity_trend() =~= Seq::<u64>::empty(),
            r.live_cells == 0,
            r.occupied_capacity == 0,
            r.live_cells_extrema == (RunningExtrema { max_seen: 0u64, min_seen: u64::MAX }),
            r.occupied_capacity_extrema == (RunningExtrema { max_seen: 0u64, min_seen: u64::MAX }),
    {
        GetOverviewOfBlockchainDasboardState {
            live_cells_history: BoundedHistory::new(SAMPLE_HISTORY_CAPACITY),
            live_cells_extrema: RunningExtrema::new(),
            live_cells: 0,
            occupied_capacity_history: BoundedHistory::new(SAMPLE_HISTORY_CAPACITY),
            occupied_capacity_extrema: RunningExtrema::new(),
            occupied_capacity: 0,
        }
    }

    /// Takes one overview reading into the statistics: both current values
    /// are replaced, both extrema observe them, and both trends grow by one
    /// bounded sample.
    pub fn observe_overview(&mut self, live_cells: u64, occupied_capacity: u64)
        requires
            old(self).well_formed(),
        ensures
            final(self).well_formed(),
            final(self).live_cells == live_cells,
            final(self).occupied_capacity == occupied_capacity,
            final(self).live_cells_trend() == fifo_push(
                old(self).live_cells_trend(),
                SAMPLE_HISTORY_CAPACITY as nat,
                live_cells,
            ),
            final(self).occupied_capacity_trend() == fifo_push(
                old(self).occupied_capacity_trend(),
                SAMPLE_HISTORY_CAPACITY as nat,
                occupied_capacity,
            ),
            final(self).live_cells_extrema.max_seen == if live_cells > old(
                self,
            ).live_cells_extrema.max_seen {
                live_cells
            } else {
                old(self).live_cells_extrema.max_seen
            },
            final(self).live_cells_extrema.min_seen == if live_cells < old(
                self,
            ).live_cells_extrema.min_seen {
                live_cells
            } else {
                old(self).live_cells_extrema.min_seen
            },
            final(self).occupied_capacity_extrema.max_seen == if occupied_capacity > old(
                self,
            ).occupied_capacity_extrema.max_seen {
                occupied_capacity
            } else {
                old(self).occupied_capacity_extrema.max_seen
            },
            final(self).occupied_capacity_extrema.min_seen == if occupied_capacity < old(
                self,
            ).occupied_capacity_extrema.min_seen {
                occupied_capacity
            } else {
                old(self).occupied_capacity_extrema.min_seen
            },
    {
        self.live_cells = live_cells;
        self.live_cells_extrema.observe(live_cells);
        self.live_cells_history.push(live_cells);
        self.occupied_capacity = occupied_capacity;
        self.occupied_capacity_extrema.observe(occupied_capacity);
        self.occupied_capacity_history.push(occupied_capacity);
    }

    /// A copy of the live-cell trend, oldest first.
    pub fn live_cells_samples(&self) -> (r: Vec<u64>)
        ensures
            r@ == self.live_cells_trend(),
    {
        self.live_cells_history.to_vec()
    }

    /// A copy of the occupied-capacity trend, oldest first.
    pub fn occupied_capacity_samples(&self) -> (r: Vec<u64>)
        ensures
            r@ == self.occupied_capacity_trend(),
    {
        self.occupied_capacity_history.to_vec()
    }
}

/// Whether a system script is a lock script or a type script.
#[derive(Clone, Copy, PartialEq, Eq, Structural, Debug)]
pub enum ScriptType {
    Lock,
    Type,
}

/// One system script of the script-integrity table.
#[derive(Clone, Debug)]
pub struct ScriptItem {
    /// Well-known name of the script.
    pub name: String,
    /// Whether it is a lock script or a type script.
    pub script_type: ScriptType,
    /// The failure text of the integrity check, or nothing when it passed.
    pub integrity_error: Option<String>,
    /// Hexadecimal code hash from the consensus parameters.
    pub code_hash: String,
}

/// The abstract value of a script-table row. The integrity field holds the
/// failure text, or nothing when the check passed.
pub struct ScriptItemView {
    pub name: Seq<char>,
    pub script_type: ScriptType,
    pub integrity_error: Option<Seq<char>>,
    pub code_hash: Seq<char>,
}

impl View for ScriptItem {
    type V = ScriptItemView;

    open spec fn view(&self) -> ScriptItemView {
        ScriptItemView {
            name: self.name@,
            script_type: self.script_type,
            integrity_error: match &self.integrity_error {
                Some(e) => Some(e@),
                None => None,
            },
            code_hash: self.code_hash@,
        }
    }
}

/// A script-table row that passed its integrity check.
pub open spec fn script_row(name: Seq<char>, script_type: ScriptType, code_hash: Seq<char>)
    -> ScriptItemView {
    ScriptItemView { name, script_type, integrity_error: None, code_hash }
}

/// The script-integrity table built from the consensus parameters: the two
/// optional secp256k1 lock scripts where the chain has them, then the dao
/// lock script and the type-id type script.
pub open spec fn spec_script_items(
    secp_sighash: Option<Seq<char>>,
    secp_multisig: Option<Seq<char>>,
    dao: Seq<char>,
    type_id: Seq<char>,
) -> Seq<ScriptItemView> {
    (match secp_sighash {
        Some(h) => seq![script_row("secp256k1_blake160_sighash_all"@, ScriptType::Lock, h)],
        None => Seq::empty(),
    }) + (match secp_multisig {
        Some(h) => seq![script_row("secp256k1_blake160_multisig_all"@, ScriptType::Lock, h)],
        None => Seq::empty(),
    }) + seq![
        script_row("dao"@, ScriptType::Lock, dao),
        script_row("type_id"@, ScriptType::Type, type_id),
    ]
}

/// Builds the script-integrity table from the consensus parameters.
pub fn build_script_items(
    secp_sighash: Option<String>,
    secp_multisig: Option<String>,
    dao: String,
    type_id: String,
) -> (r: Vec<ScriptItem>)
    ensures
        r@.map_values(|e: ScriptItem| e@) == spec_script_items(
            match secp_sighash {
                Some(h) => Some(h@),
                None => None,
            },
            match secp_multisig {
                Some(h) => Some(h@),
                None => None,
            },
            dao@,
            type_id@,
        ),
{
    let ghost s1 = match secp_sighash {
        Some(ref h) => Some(h@),
        None => None,
    };
    let ghost s2 = match secp_multisig {
        Some(ref h) => Some(h@),
        None => None,
    };
    let mut out: Vec<ScriptItem> = Vec::new();
    if let Some(hash) = secp_sighash {
        out.push(ScriptItem {
            name: String::from_str("secp256k1_blake160_sighash_all"),
            script_type: ScriptType::Lock,
            integrity_error: None,
            code_hash: hash,
        });
    }
    if let Some(hash) = secp_multisig {
        out.push(ScriptItem {
            name: String::from_str("secp256k1_blake160_multisig_all"),
            script_type: ScriptType::Lock,
            integrity_error: None,
            code_hash: hash,
        });
    }
    out.push(ScriptItem {
        name: String::from_str("dao"),
        script_type: ScriptType::Lock,
        integrity_error: None,
        code_hash: dao,
    });
    out.push(ScriptItem {
        name: String::from_str("type_id"),
        script_type: ScriptType::Type,
        integrity_error: None,
        code_hash: type_id,
    });
    proof {
        assert(out@.map_values(|e: ScriptItem| e@) =~= spec_script_items(s1, s2, dao@, type_id@));
    }
    out
}

/// Mining figures read from the node's overview endpoint, kept as the
/// decimal text the node sent; display layers parse and scale them.
#[derive(Clone, Debug)]
pub struct GetOverviewOfBlockchainDashboardData {
    /// Current difficulty.
    pub difficulty: String,
    /// Current network hash rate.
    pub hash_rate: String,
}

/// Immutable snapshot of the blockchain panel, produced once per refresh
/// cycle and superseded wholesale by the next one.
#[derive(Clone, Debug)]
pub struct BlockchainDashboardData {
    /// Epoch number of the tip.
    pub epoch: u64,
    /// Position of the tip within its epoch.
    pub epoch_block: u64,
    /// Number of blocks in the tip's epoch.
    pub epoch_block_count: u64,
    /// Estimated time until the epoch completes, absent on its first block.
    pub estimated_epoch_time_ms: Option<u64>,
    /// Average block time of the epoch, absent on its first block.
    pub average_block_time_ms: Option<u64>,
    /// Height of the tip.
    pub block_height: u64,
    /// Name of the proof-of-work algorithm.
    pub algorithm: String,
    /// Mining figures, when the overview endpoint is available.
    pub overview_data: Option<GetOverviewOfBlockchainDashboardData>,
    /// The script-integrity table.
    pub scripts: Vec<ScriptItem>,
    /// Whether the fetch path should ask the overview endpoint at all.
    pub enable_overview_data: bool,
}

impl BlockchainDashboardData {
    /// Assembles the panel snapshot from the raw values one refresh cycle
    /// fetched: the epoch position decoded from the tip's compact field,
    /// the timing estimates, and the script table from the consensus
    /// parameters.
    pub fn from_raw(
        epoch_field: u64,
        block_height: u64,
        timing: Option<EpochTiming>,
        overview_data: Option<GetOverviewOfBlockchainDashboardData>,
        secp_sighash: Option<String>,
        secp_multisig: Option<String>,
        dao: String,
        type_id: String,
        enable_overview_data: bool,
    ) -> (r: Self)
        ensures
            r.epoch == epoch_number_of(epoch_field),
            r.epoch_block == epoch_block_of(epoch_field),
            r.epoch_block_count == epoch_block_count_of(epoch_field),
            r.average_block_time_ms == match timing {
                Some(t) => Some(t.average_block_time_ms),
                None => None::<u64>,
            },
            r.estimated_epoch_time_ms == match timing {
                Some(t) => Some(t.estimated_epoch_time_ms),
                None => None::<u64>,
            },
            r.block_height == block_height,
            r.algorithm@ == "Eaglesong"@,
            r.overview_data == overview_data,
            r.scripts@.map_values(|e: ScriptItem| e@) == spec_script_items(
                match secp_sighash {
                    Some(h) => Some(h@),
                    None => None,
                },
                match secp_multisig {
                    Some(h) => Some(h@),
                    None => None,
                },
                dao@,
                type_id@,
            ),
            r.enable_overview_data == enable_overview_data,
    {
        let (epoch, epoch_block, epoch_block_count) = extract_epoch(epoch_field);
        let (average_block_time_ms, estimated_epoch_time_ms) = match timing {
            Some(t) => (Some(t.average_block_time_ms), Some(t.estimated_epoch_time_ms)),
            None => (None, None),
        };
        BlockchainDashboardData {
            epoch,
            epoch_block,
            epoch_block_count,
            estimated_epoch_time_ms,
            average_block_time_ms,
            block_height,
            algorithm: String::from_str("Eaglesong"),
            overview_data,
            scripts: build_script_items(secp_sighash, secp_multisig, dao, type_id),
            enable_overview_data,
        }
    }

    /// Sets whether the fetch path should ask the overview endpoint.
    pub fn set_enable_overview_data(&mut self, flag: bool)
        ensures
            *final(self) == (BlockchainDashboardData { enable_overview_data: flag, ..*old(self) }),
    {
        self.enable_overview_data = flag;
    }
}

} // verus!
