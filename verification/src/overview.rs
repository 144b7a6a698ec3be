//! Overview panel: the snapshot fetched on each refresh cycle, and the
//! continuously refreshed local state behind the sync-progress and
//! system-resource figures.

use vstd::prelude::*;

use crate::arith::{sat_add, sat_sub, sat_sum, saturating_add, saturating_sub, spec_ceil_div};
use crate::epoch::{epoch_block_count_of, epoch_block_of, epoch_number_of, extract_epoch, EpochTiming};
use crate::history::{fifo_push, BoundedHistory};

verus! {

/// Capacity of the CPU-load trend history.
pub const CPU_HISTORY_CAPACITY: usize = 20;

/// The peers panel shows a mean latency; the node interface does not expose
/// one for the overview yet, and this placeholder marks the column absent.
pub const PLACEHOLDER_LATENCY: isize = -1;

/// How many of the flags are set.
pub open spec fn count_true(s: Seq<bool>) -> int
    decreases s.len(),
{
    if s.len() == 0 {
        0
    } else {
        count_true(s.drop_last()) + if s.last() {
            1int
        } else {
            0int
        }
    }
}

/// Sums the cumulative totals of the network devices: transmitted and
/// received bytes, each saturating at the counter ceiling.
pub fn sum_network_totals(devices: &Vec<(u64, u64)>) -> (r: (u64, u64))
    ensures
        r.0 == sat_sum(devices@.map_values(|d: (u64, u64)| d.0)),
        r.1 == sat_sum(devices@.map_values(|d: (u64, u64)| d.1)),
{
    let ghost sent = devices@.map_values(|d: (u64, u64)| d.0);
    let ghost received = devices@.map_values(|d: (u64, u64)| d.1);
    let mut total_sent: u64 = 0;
    let mut total_received: u64 = 0;
    let mut i: usize = 0;
    while i < devices.len()
        invariant
            i <= devices@.len(),
            sent == devices@.map_values(|d: (u64, u64)| d.0),
            received == devices@.map_values(|d: (u64, u64)| d.1),
            total_sent == sat_sum(sent.take(i as int)),
            total_received == sat_sum(received.take(i as int)),
        decreases devices@.len() - i,
    {
        total_sent = saturating_add(total_sent, devices[i].0);
        total_received = saturating_add(total_received, devices[i].1);
        i += 1;
        proof {
            assert(sent.take(i as int).drop_last() =~= sent.take(i as int - 1));
            assert(received.take(i as int).drop_last() =~= received.take(i as int - 1));
        }
    }
    proof {
        assert(sent.take(sent.len() as int) =~= sent);
        assert(received.take(received.len() as int) =~= received);
    }
    (total_sent, total_received)
}

/// Sums the disks' space figures. Each disk reports its total and its
/// available space; the used space of one disk is their difference, zero if
/// the report is inconsistent, and both sums saturate at the counter
/// ceiling.
pub fn sum_disk_space(disks: &Vec<(u64, u64)>) -> (r: (u64, u64))
    ensures
        r.0 == sat_sum(disks@.map_values(|d: (u64, u64)| d.0)),
        r.1 == sat_sum(disks@.map_values(|d: (u64, u64)| sat_sub(d.0, d.1))),
{
    let ghost totals = disks@.map_values(|d: (u64, u64)| d.0);
    let ghost used = disks@.map_values(|d: (u64, u64)| sat_sub(d.0, d.1));
    let mut disk_total: u64 = 0;
    let mut disk_used: u64 = 0;
    let mut i: usize = 0;
    while i < disks.len()
        invariant
            i <= disks@.len(),
            totals == disks@.map_values(|d: (u64, u64)| d.0),
            used == disks@.map_values(|d: (u64, u64)| sat_sub(d.0, d.1)),
            disk_total == sat_sum(totals.take(i as int)),
            disk_used == sat_sum(used.take(i as int)),
        decreases disks@.len() - i,
    {
        disk_total = saturating_add(disk_total, disks[i].0);
        disk_used = saturating_add(disk_used, saturating_sub(disks[i].0, disks[i].1));
        i += 1;
        proof {
            assert(totals.take(i as int).drop_last() =~= totals.take(i as int - 1));
            assert(used.take(i as int).drop_last() =~= used.take(i as int - 1));
        }
    }
    proof {
        assert(totals.take(totals.len() as int) =~= totals);
        assert(used.take(used.len() as int) =~= used);
    }
    (disk_total, disk_used)
}

/// Bytes per second carried by a counter that grew by `delta_bytes` over
/// `elapsed_ms`: an elapsed time of zero counts as one millisecond, so the
/// rate is never a division by zero, and the result is capped at the
/// counter ceiling.
pub open spec fn spec_transfer_speed_bps(delta_bytes: u64, elapsed_ms: u64) -> int {
    let e: int = if elapsed_ms == 0 {
        1
    } else {
        elapsed_ms as int
    };
    let v = delta_bytes * 1000 / e;
    if v <= u64::MAX {
        v
    } else {
        u64::MAX as int
    }
}

/// Bytes per second carried by a counter that grew by `delta_bytes` over
/// `elapsed_ms`.
pub fn transfer_speed_bps(delta_bytes: u64, elapsed_ms: u64) -> (r: u64)
    ensures
        r as int == spec_transfer_speed_bps(delta_bytes, elapsed_ms),
{
    let e: u128 = if elapsed_ms == 0 {
        1
    } else {
        elapsed_ms as u128
    };
    let v = delta_bytes as u128 * 1000u128 / e;
    if v <= u64::MAX as u128 {
        v as u64
    } else {
        u64::MAX
    }
}

/// Seconds until the sync reaches the best known block, from the last
/// tick's progress: blocks still missing, divided by the pace of the last
/// tick. Zero when the tip is caught up; the counter ceiling when the last
/// tick made no progress, since no pace means no estimate.
pub open spec fn spec_sync_eta_secs(
    current_block: u64,
    total_block: u64,
    delta_blocks: u64,
    elapsed_ms: u64,
) -> u64 {
    if total_block <= current_block {
        0
    } else if delta_blocks == 0 {
        u64::MAX
    } else {
        let v = spec_ceil_div(
            (total_block - current_block) * elapsed_ms,
            delta_blocks * 1000,
        );
        if v <= u64::MAX {
            v as u64
        } else {
            u64::MAX
        }
    }
}

/// Seconds until the sync reaches the best known block, from the last
/// tick's progress.
pub fn sync_eta_secs(current_block: u64, total_block: u64, delta_blocks: u64, elapsed_ms: u64)
    -> (r: u64)
    ensures
        r == spec_sync_eta_secs(current_block, total_block, delta_blocks, elapsed_ms),
{
    if total_block <= current_block {
        return 0;
    }
    if delta_blocks == 0 {
        return u64::MAX;
    }
    let missing = (total_block - current_block) as u128;
    let elapsed = elapsed_ms as u128;
    proof {
        assert(missing * elapsed <= u64::MAX as int * u64::MAX as int) by (nonlinear_arith)
            requires
                0 <= missing <= u64::MAX as int,
                0 <= elapsed <= u64::MAX as int,
        ;
    }
    let a: u128 = missing * elapsed;
    let b: u128 = delta_blocks as u128 * 1000u128;
    let q = a / b;
    let rem = a % b;
    proof {
        assert(a / b <= a) by (nonlinear_arith)
            requires
                a >= 0,
                b >= 1,
        ;
    }
    let v = if rem > 0 {
        q + 1
    } else {
        q
    };
    if v <= u64::MAX as u128 {
        v as u64
    } else {
        u64::MAX
    }
}

/// The fill of the sync progress bar, in percent: how much of the best
/// known height the local tip has reached, never past one hundred, and
/// zero while no best known height is on record rather than a division by
/// zero.
pub open spec fn spec_sync_progress_percent(current_block: u64, total_block: u64) -> int {
    if total_block == 0 {
        0
    } else if current_block >= total_block {
        100
    } else {
        current_block * 100 / total_block as int
    }
}

/// The fill of the sync progress bar, in percent.
pub fn sync_progress_percent(current_block: u64, total_block: u64) -> (r: u8)
    ensures
        r as int == spec_sync_progress_percent(current_block, total_block),
        r <= 100,
{
    if total_block == 0 {
        return 0;
    }
    if current_block >= total_block {
        return 100;
    }
    let v = current_block as u128 * 100u128 / total_block as u128;
    proof {
        assert((current_block as int) * 100 / (total_block as int) < 100) by (nonlinear_arith)
            requires
                0 <= current_block < total_block,
        ;
    }
    v as u8
}

/// One reading of the local system and mining figures, as the continuous
/// loop hands it in once per tick.
#[derive(Clone, Debug)]
pub struct SystemReading {
    /// CPU load, in thousandths of full load.
    pub cpu_permille: u64,
    /// Cumulative bytes read from disk.
    pub total_disk_read_bytes: u64,
    /// Cumulative bytes written to disk.
    pub total_disk_written_bytes: u64,
    /// Cumulative bytes sent over all network devices.
    pub total_network_sent_bytes: u64,
    /// Cumulative bytes received over all network devices.
    pub total_network_received_bytes: u64,
    /// Memory installed, in bytes.
    pub ram_total: u64,
    /// Memory in use, in bytes.
    pub ram_used: u64,
    /// Disk space over all disks, in bytes.
    pub disk_total: u64,
    /// Disk space in use, in bytes.
    pub disk_used: u64,
    /// Current difficulty, as the decimal text the node sent.
    pub difficulty: String,
    /// Current network hash rate, as the decimal text the node sent.
    pub hash_rate: String,
}

/// Continuously refreshed system state of the overview panel: the CPU trend
/// behind the sparkline, the cumulative transfer counters with the speeds
/// derived from their growth, and the latest resource and mining figures.
#[derive(Debug)]
pub struct GetOverviewOfOverviewDashboardState {
    /// CPU-load trend, in thousandths of full load, oldest first.
    pub cpu_history: BoundedHistory<u64>,
    /// Cumulative bytes read from disk at the last reading.
    pub total_disk_read_bytes: u64,
    /// Cumulative bytes written to disk at the last reading.
    pub total_disk_write_bytes: u64,
    /// Disk read pace over the last tick, in bytes per second.
    pub disk_read_speed_bps: u64,
    /// Disk write pace over the last tick, in bytes per second.
    pub disk_write_speed_bps: u64,
    /// Cumulative bytes sent at the last reading.
    pub total_network_send_bytes: u64,
    /// Cumulative bytes received at the last reading.
    pub total_network_receive_bytes: u64,
    /// Send pace over the last tick, in bytes per second.
    pub network_send_speed_bps: u64,
    /// Receive pace over the last tick, in bytes per second.
    pub network_receive_speed_bps: u64,
    /// CPU load at the last reading, in thousandths of full load.
    pub cpu_permille: u64,
    /// Memory installed, in bytes.
    pub ram_total: u64,
    /// Memory in use, in bytes.
    pub ram_used: u64,
    /// Disk space in use, in bytes.
    pub disk_used: u64,
    /// Disk space over all disks, in bytes.
    pub disk_total: u64,
    /// Current difficulty, as the decimal text the node sent.
    pub difficulty: String,
    /// Current network hash rate, as the decimal text the node sent.
    pub hash_rate: String,
}

impl GetOverviewOfOverviewDashboardState {
    /// The invariant of the state: the CPU trend stays within its capacity.
    pub open spec fn well_formed(&self) -> bool {
        &&& self.cpu_history.well_formed()
        &&& self.cpu_history.spec_capacity() == CPU_HISTORY_CAPACITY
    }

    /// What one reading does to the state: the trend grows by one bounded
    /// sample, each speed is the growth of its counter over the elapsed
    /// time, and every latest figure is replaced by the reading's.
    pub open spec fn reading_transition(
        pre: Self,
        post: Self,
        elapsed_ms: u64,
        reading: SystemReading,
    ) -> bool {
        &&& post.cpu_history@ == fifo_push(
            pre.cpu_history@,
            CPU_HISTORY_CAPACITY as nat,
            reading.cpu_permille,
        )
        &&& post.disk_read_speed_bps as int == spec_transfer_speed_bps(
            sat_sub(reading.total_disk_read_bytes, pre.total_disk_read_bytes),
            elapsed_ms,
        )
        &&& post.disk_write_speed_bps as int == spec_transfer_speed_bps(
            sat_sub(reading.total_disk_written_bytes, pre.total_disk_write_bytes),
            elapsed_ms,
        )
        &&& post.network_send_speed_bps as int == spec_transfer_speed_bps(
            sat_sub(reading.total_network_sent_bytes, pre.total_network_send_bytes),
            elapsed_ms,
        )
        &&& post.network_receive_speed_bps as int == spec_transfer_speed_bps(
            sat_sub(reading.total_network_received_bytes, pre.total_network_receive_bytes),
            elapsed_ms,
        )
        &&& post.total_disk_read_bytes == reading.total_disk_read_bytes
        &&& post.total_disk_write_bytes == reading.total_disk_written_bytes
        &&& post.total_network_send_bytes == reading.total_network_sent_bytes
        &&& post.total_network_receive_bytes == reading.total_network_received_bytes
        &&& post.cpu_permille == reading.cpu_permille
        &&& post.ram_total == reading.ram_total
        &&& post.ram_used == reading.ram_used
        &&& post.disk_total == reading.disk_total
        &&& post.disk_used == reading.disk_used
        &&& post.difficulty == reading.difficulty
        &&& post.hash_rate == reading.hash_rate
    }

    /// A fresh state built from the first reading: counters take its
    /// values, the trend starts empty, and no pace is known yet.
    pub fn from_first_reading(reading: SystemReading) -> (r: Self)
        ensures
            r.well_formed(),
            r.cpu_history@ =~= Seq::<u64>::empty(),
            r.total_disk_read_bytes == reading.total_disk_read_bytes,
            r.total_disk_write_bytes == reading.total_disk_written_bytes,
            r.total_network_send_bytes == reading.total_network_sent_bytes,
            r.total_network_receive_bytes == reading.total_network_received_bytes,
            r.disk_read_speed_bps == 0,
            r.disk_write_speed_bps == 0,
            r.network_send_speed_bps == 0,
            r.network_receive_speed_bps == 0,
            r.cpu_permille == reading.cpu_permille,
            r.ram_total == reading.ram_total,
            r.ram_used == reading.ram_used,
            r.disk_total == reading.disk_total,
            r.disk_used == reading.disk_used,
            r.difficulty == reading.difficulty,
            r.hash_rate == reading.hash_rate,
    {
        GetOverviewOfOverviewDashboardState {
            cpu_history: BoundedHistory::new(CPU_HISTORY_CAPACITY),
            total_disk_read_bytes: reading.total_disk_read_bytes,
            total_disk_write_bytes: reading.total_disk_written_bytes,
            disk_read_speed_bps: 0,
            disk_write_speed_bps: 0,
            total_network_send_bytes: reading.total_network_sent_bytes,
            total_network_receive_bytes: reading.total_network_received_bytes,
            network_send_speed_bps: 0,
            network_receive_speed_bps: 0,
            cpu_permille: reading.cpu_permille,
            ram_total: reading.ram_total,
            ram_used: reading.ram_used,
            disk_total: reading.disk_total,
            disk_used: reading.disk_used,
            difficulty: reading.difficulty,
            hash_rate: reading.hash_rate,
        }
    }

    /// Takes one reading into the state.
    pub fn observe(&mut self, elapsed_ms: u64, reading: SystemReading)
        requires
            old(self).well_formed(),
        ensures
            final(self).well_formed(),
            Self::reading_transition(*old(self), *final(self), elapsed_ms, reading),
    {
        self.disk_read_speed_bps = transfer_speed_bps(
            saturating_sub(reading.total_disk_read_bytes, self.total_disk_read_bytes),
            elapsed_ms,
        );
        self.disk_write_speed_bps = transfer_speed_bps(
            saturating_sub(reading.total_disk_written_bytes, self.total_disk_write_bytes),
            elapsed_ms,
        );
        self.network_send_speed_bps = transfer_speed_bps(
            saturating_sub(reading.total_network_sent_bytes, self.total_network_send_bytes),
            elapsed_ms,
        );
        self.network_receive_speed_bps = transfer_speed_bps(
            saturating_sub(
                reading.total_network_received_bytes,
                self.total_network_receive_bytes,
            ),
            elapsed_ms,
        );
        self.cpu_history.push(reading.cpu_permille);
        self.total_disk_read_bytes = reading.total_disk_read_bytes;
        self.total_disk_write_bytes = reading.total_disk_written_bytes;
        self.total_network_send_bytes = reading.total_network_sent_bytes;
        self.total_network_receive_bytes = reading.total_network_received_bytes;
        self.cpu_permille = reading.cpu_permille;
        self.ram_total = reading.ram_total;
        self.ram_used = reading.ram_used;
        self.disk_total = reading.disk_total;
        self.disk_used = reading.disk_used;
        self.difficulty = reading.difficulty;
        self.hash_rate = reading.hash_rate;
    }
}

/// Continuously refreshed sync and system state of the overview panel.
#[derive(Debug)]
pub struct OverviewDashboardState {
    /// When the state last took a tick, in milliseconds.
    pub last_update_ms: u64,
    /// Height of the local tip at the last tick.
    pub current_block: u64,
    /// Best known block height at the last tick.
    pub total_block: u64,
    /// Seconds until the sync catches up, from the last tick's pace.
    pub estimated_time_left_secs: u64,
    /// System figures, when the overview endpoint is available.
    pub overview_data: Option<GetOverviewOfOverviewDashboardState>,
}

impl OverviewDashboardState {
    /// The invariant of the state.
    pub open spec fn well_formed(&self) -> bool {
        match self.overview_data {
            Some(d) => d.well_formed(),
            None => true,
        }
    }

    /// A fresh state: no sync progress seen yet, and system figures only
    /// where a first reading was available.
    pub fn new(now_ms: u64, initial: Option<SystemReading>) -> (r: Self)
        ensures
            r.well_formed(),
            r.last_update_ms == now_ms,
            r.current_block == 0,
            r.total_block == 1,
            r.estimated_time_left_secs == 100,
            r.overview_data is Some <==> initial is Some,
    {
        let overview_data = match initial {
            Some(reading) => Some(GetOverviewOfOverviewDashboardState::from_first_reading(reading)),
            None => None,
        };
        OverviewDashboardState {
            last_update_ms: now_ms,
            current_block: 0,
            total_block: 1,
            estimated_time_left_secs: 100,
            overview_data,
        }
    }

    /// Takes one tick into the state: the sync estimate is recomputed from
    /// the tick's progress, and the system figures take the reading when
    /// both sides have one. The elapsed time is measured from the last
    /// tick.
    pub fn update_state(
        &mut self,
        now_ms: u64,
        current_block: u64,
        total_block: u64,
        system: Option<SystemReading>,
    )
        requires
            old(self).well_formed(),
        ensures
            final(self).well_formed(),
            final(self).last_update_ms == now_ms,
            final(self).current_block == current_block,
            final(self).total_block == total_block,
            final(self).estimated_time_left_secs == spec_sync_eta_secs(
                current_block,
                total_block,
                sat_sub(current_block, old(self).current_block),
                sat_sub(now_ms, old(self).last_update_ms),
            ),
            old(self).overview_data is Some && system is Some
                ==> final(self).overview_data is Some
                && GetOverviewOfOverviewDashboardState::reading_transition(
                old(self).overview_data->0,
                final(self).overview_data->0,
                sat_sub(now_ms, old(self).last_update_ms),
                system->0,
            ),
            old(self).overview_data is None || system is None ==> final(self).overview_data
                == old(self).overview_data,
    {
        let elapsed_ms = saturating_sub(now_ms, self.last_update_ms);
        if let Some(reading) = system {
            match &mut self.overview_data {
                Some(data) => data.observe(elapsed_ms, reading),
                None => {},
            }
        }
        let delta_blocks = saturating_sub(current_block, self.current_block);
        let eta = sync_eta_secs(current_block, total_block, delta_blocks, elapsed_ms);
        self.current_block = current_block;
        self.total_block = total_block;
        self.estimated_time_left_secs = eta;
        self.last_update_ms = now_ms;
    }
}

/// Pool totals shown on the overview panel, read from the node's overview
/// endpoint.
#[derive(Clone, Copy, PartialEq, Eq, Structural, Debug)]
pub struct GetOverviewOfOverviewDashboardData {
    /// Transactions waiting to be proposed.
    pub tx_pending: u64,
    /// Transactions proposed but not yet committed.
    pub tx_proposed: u64,
    /// Transactions being committed.
    pub tx_committing: u64,
    /// Transactions recently rejected.
    pub tx_rejected: u64,
    /// Serialized size of everything in the pool, in bytes.
    pub total_pool_size_in_bytes: u64,
}

impl GetOverviewOfOverviewDashboardData {
    /// How many transactions the pool holds over all three stages,
    /// saturating at the counter ceiling.
    pub fn total_txs(&self) -> (r: u64)
        ensures
            r == sat_add(sat_add(self.tx_pending, self.tx_proposed), self.tx_committing),
    {
        saturating_add(saturating_add(self.tx_pending, self.tx_proposed), self.tx_committing)
    }
}

/// Immutable snapshot of the overview panel, produced once per refresh
/// cycle and superseded wholesale by the next one.
#[derive(Clone, Debug)]
pub struct OverviewDashboardData {
    /// How many peers dialed us.
    pub inbound_peers: usize,
    /// How many peers we dialed.
    pub outbound_peers: usize,
    /// Mean peer latency; negative while the node interface exposes none.
    pub average_latency: isize,
    /// Pool totals, when the overview endpoint is available.
    pub overview_data: Option<GetOverviewOfOverviewDashboardData>,
    /// Mean fee rate reported by the node, in shannons per kilobyte.
    pub average_fee_rate: Option<u64>,
    /// Epoch number of the tip.
    pub epoch: u64,
    /// Position of the tip within its epoch.
    pub epoch_block: u64,
    /// Number of blocks in the tip's epoch.
    pub epoch_block_count: u64,
    /// Estimated time until the epoch completes, absent on its first block.
    pub estimated_epoch_time_ms: Option<u64>,
    /// Average block time of the epoch, absent on its first block.
    pub average_block_time_ms: Option<u64>,
    /// Whether the fetch path should ask the overview endpoint at all.
    pub enable_fetch_overview_data: bool,
}

impl OverviewDashboardData {
    /// Assembles the panel snapshot from the raw values one refresh cycle
    /// fetched: peer directions are counted, the epoch position is decoded
    /// from the tip's compact field, and the timing estimates carry over.
    pub fn from_raw(
        peers_outbound: &Vec<bool>,
        average_fee_rate: Option<u64>,
        epoch_field: u64,
        timing: Option<EpochTiming>,
        overview_data: Option<GetOverviewOfOverviewDashboardData>,
        enable_fetch_overview_data: bool,
    ) -> (r: Self)
        ensures
            r.outbound_peers == count_true(peers_outbound@),
            r.inbound_peers + r.outbound_peers == peers_outbound@.len(),
            r.average_latency == PLACEHOLDER_LATENCY,
            r.overview_data == overview_data,
            r.average_fee_rate == average_fee_rate,
            r.epoch == epoch_number_of(epoch_field),
            r.epoch_block == epoch_block_of(epoch_field),
            r.epoch_block_count == epoch_block_count_of(epoch_field),
            r.average_block_time_ms == match timing {
                Some(t) => Some(t.average_block_time_ms),
                None => None::<u64>,
            },
            r.estimated_epoch_time_ms == match timing {
                Some(t) => Some(t.estimated_epoch_time_ms),
                None => None::<u64>,
            },
            r.enable_fetch_overview_data == enable_fetch_overview_data,
    {
        let mut outbound: usize = 0;
        let mut inbound: usize = 0;
        let mut i: usize = 0;
        while i < peers_outbound.len()
            invariant
                i <= peers_outbound@.len(),
                outbound == count_true(peers_outbound@.take(i as int)),
                inbound + outbound == i,
            decreases peers_outbound@.len() - i,
        {
            if peers_outbound[i] {
                outbound = outbound + 1;
            } else {
                inbound = inbound + 1;
            }
            i += 1;
            proof {
                assert(peers_outbound@.take(i as int).drop_last() =~= peers_outbound@.take(
                    i as int - 1,
                ));
            }
        }
        proof {
            assert(peers_outbound@.take(peers_outbound@.len() as int) =~= peers_outbound@);
        }
        let (epoch, epoch_block, epoch_block_count) = extract_epoch(epoch_field);
        let (average_block_time_ms, estimated_epoch_time_ms) = match timing {
            Some(t) => (Some(t.average_block_time_ms), Some(t.estimated_epoch_time_ms)),
            None => (None, None),
        };
        OverviewDashboardData {
            inbound_peers: inbound,
            outbound_peers: outbound,
            average_latency: PLACEHOLDER_LATENCY,
            overview_data,
            average_fee_rate,
            epoch,
            epoch_block,
            epoch_block_count,
            estimated_epoch_time_ms,
            average_block_time_ms,
            enable_fetch_overview_data,
        }
    }

    /// Sets whether the fetch path should ask the overview endpoint.
    pub fn set_enable_overview_data(&mut self, flag: bool)
        ensures
            *final(self) == (OverviewDashboardData {
                enable_fetch_overview_data: flag,
                ..*old(self)
            }),
    {
        self.enable_fetch_overview_data = flag;
    }
}

} // verus!
