//! The snapshot store: the latest snapshot, written one whole sampling
//! cycle at a time.
//!
//! Exclusive access is Rust's: a write needs `&mut`, and a read that holds
//! `&` cannot overlap it. Whoever shares the store between threads wraps it
//! in a lock and keeps these calls inside it.

use vstd::prelude::*;
use crate::disk::{apply_disk_reading, DiskAdapter, DiskPoll, DiskReading};
use crate::gpu::{apply_gpu_reading, unknown_gpu_name, DeviceReadingView, GpuAdapter, GpuReading};
use crate::host::{apply_host_reading, lemma_ram_ordered_after_host, HostReading};
use crate::snapshot::{HardwareMetrics, MetricsView};
use crate::units::{bytes_per_sec_of_kib, gib_of_bytes, mib_of_bytes};

verus! {

/// Everything the adapters reported in one sampling cycle.
#[derive(Debug, PartialEq, Eq)]
pub struct CycleOutcome {
    /// CPU and memory.
    pub host: HostReading,
    /// The accelerator.
    pub gpu: GpuReading,
    /// The disks.
    pub disk: DiskReading,
}

/// The mathematical content of a [`CycleOutcome`].
pub struct CycleOutcomeView {
    pub host: HostReading,
    pub gpu: Option<DeviceReadingView>,
    pub disk: DiskReading,
}

impl View for CycleOutcome {
    type V = CycleOutcomeView;

    open spec fn view(&self) -> CycleOutcomeView {
        CycleOutcomeView { host: self.host, gpu: self.gpu@, disk: self.disk }
    }
}

impl MetricsView {
    /// The snapshot after one whole cycle: host, then accelerator, then
    /// disks.
    pub open spec fn after_cycle(self, outcome: CycleOutcomeView) -> MetricsView {
        self.with_host(outcome.host).with_gpu(outcome.gpu).with_disk(outcome.disk)
    }

    /// Whether this snapshot shows the whole of one cycle on top of the
    /// snapshot `before`: field by field, the value that the cycle obtained
    /// and converted, or the value from `before` where the cycle obtained
    /// none.
    pub open spec fn shows_whole_cycle(
        self,
        before: MetricsView,
        outcome: CycleOutcomeView,
    ) -> bool {
        &&& self.cpu_usage_bits == outcome.host.cpu_usage.bits
        &&& self.ram_used_gb == match outcome.host.memory {
            Some(memory) => gib_of_bytes(memory.used_bytes as nat),
            None => before.ram_used_gb,
        }
        &&& self.ram_total_gb == match outcome.host.memory {
            Some(memory) => gib_of_bytes(memory.total_bytes as nat),
            None => before.ram_total_gb,
        }
        &&& self.gpu_name == match outcome.gpu {
            Some(DeviceReadingView { name: Some(name), .. }) => name,
            Some(DeviceReadingView { name: None, .. }) => unknown_gpu_name(),
            None => before.gpu_name,
        }
        &&& self.gpu_pcie_tx_bps == match outcome.gpu {
            Some(DeviceReadingView { pcie_tx_kib_per_sec: Some(kib), .. }) => bytes_per_sec_of_kib(
                kib as nat,
            ),
            _ => before.gpu_pcie_tx_bps,
        }
        &&& self.gpu_pcie_rx_bps == match outcome.gpu {
            Some(DeviceReadingView { pcie_rx_kib_per_sec: Some(kib), .. }) => bytes_per_sec_of_kib(
                kib as nat,
            ),
            _ => before.gpu_pcie_rx_bps,
        }
        &&& self.gpu_vram_used_mb == match outcome.gpu {
            Some(DeviceReadingView { memory: Some(memory), .. }) => mib_of_bytes(
                memory.used as nat,
            ),
            _ => before.gpu_vram_used_mb,
        }
        &&& self.gpu_vram_total_mb == match outcome.gpu {
            Some(DeviceReadingView { memory: Some(memory), .. }) => mib_of_bytes(
                memory.total as nat,
            ),
            _ => before.gpu_vram_total_mb,
        }
        &&& self.disk_read_bps == match outcome.disk.read_bps {
            Some(bps) => bps as nat,
            None => before.disk_read_bps,
        }
        &&& self.disk_write_bps == match outcome.disk.write_bps {
            Some(bps) => bps as nat,
            None => before.disk_write_bps,
        }
    }
}

/// The snapshot after the given cycles, in order, starting from the initial
/// snapshot.
pub open spec fn snapshot_after(cycles: Seq<CycleOutcomeView>) -> MetricsView
    decreases cycles.len(),
{
    if cycles.len() == 0 {
        MetricsView::initial()
    } else {
        snapshot_after(cycles.drop_last()).after_cycle(cycles.last())
    }
}

/// Writing one more cycle applies it to the snapshot reached so far.
pub proof fn lemma_snapshot_after_push(cycles: Seq<CycleOutcomeView>, outcome: CycleOutcomeView)
    ensures
        snapshot_after(cycles.push(outcome)) == snapshot_after(cycles).after_cycle(outcome),
{
    assert(cycles.push(outcome).drop_last() == cycles);
}

/// The three adapters write disjoint fields, so one cycle applied is the
/// whole of that cycle shown, whatever the adapters reported.
pub proof fn lemma_cycle_is_shown_whole(before: MetricsView, outcome: CycleOutcomeView)
    ensures
        before.after_cycle(outcome).shows_whole_cycle(before, outcome),
{
}

/// Atomic visibility of a cycle. Take any cycles and any number `k` of them
/// written. The snapshot that is then visible shows the whole of cycle `k`
/// on top of what was visible before it: no field stays behind at an older
/// cycle while another has moved on.
pub proof fn lemma_visible_snapshot_is_one_cycle(cycles: Seq<CycleOutcomeView>, k: int)
    requires
        0 < k <= cycles.len(),
    ensures
        snapshot_after(cycles.take(k)) == snapshot_after(cycles.take(k - 1)).after_cycle(
            cycles[k - 1],
        ),
        snapshot_after(cycles.take(k)).shows_whole_cycle(
            snapshot_after(cycles.take(k - 1)),
            cycles[k - 1],
        ),
{
    assert(cycles.take(k).drop_last() == cycles.take(k - 1));
    assert(cycles.take(k).last() == cycles[k - 1]);
}

/// Where the accelerator's session failed to open, the adapter is inert,
/// and whatever cycles follow, the accelerator fields stay what they were at
/// the start for good: the name still says that the device is being looked
/// for, and the numbers are zero.
pub proof fn lemma_inert_gpu_keeps_initial_fields(
    adapter: GpuAdapter,
    cycles: Seq<CycleOutcomeView>,
)
    requires
        adapter is Unavailable,
        forall|i: int| 0 <= i < cycles.len() ==> adapter.may_read((#[trigger] cycles[i]).gpu),
    ensures
        snapshot_after(cycles).same_gpu_fields(MetricsView::initial()),
        snapshot_after(cycles).gpu_name == "Detecting..."@,
        snapshot_after(cycles).gpu_pcie_tx_bps == 0,
        snapshot_after(cycles).gpu_pcie_rx_bps == 0,
        snapshot_after(cycles).gpu_vram_used_mb == 0,
        snapshot_after(cycles).gpu_vram_total_mb == 0,
    decreases cycles.len(),
{
    if cycles.len() > 0 {
        lemma_inert_gpu_keeps_initial_fields(adapter, cycles.drop_last());
    }
}

/// Where the disk counters could not be set up, the adapter is inert, and
/// whatever the caller collects in the cycles that follow, the disk fields
/// stay zero for good.
pub proof fn lemma_inert_disk_keeps_initial_fields(
    cycles: Seq<CycleOutcomeView>,
    polls: Seq<Option<DiskPoll>>,
)
    requires
        polls.len() == cycles.len(),
        forall|i: int|
            0 <= i < cycles.len() ==> (#[trigger] cycles[i]).disk
                == DiskAdapter::Unavailable.reading_of(polls[i]),
    ensures
        snapshot_after(cycles).disk_read_bps == 0,
        snapshot_after(cycles).disk_write_bps == 0,
    decreases cycles.len(),
{
    if cycles.len() > 0 {
        lemma_inert_disk_keeps_initial_fields(cycles.drop_last(), polls.drop_last());
    }
}

/// Where every cycle's host reading has no memory or used memory at most
/// installed memory, so has every snapshot, the initial one included.
pub proof fn lemma_ram_stays_ordered(cycles: Seq<CycleOutcomeView>)
    requires
        forall|i: int| 0 <= i < cycles.len() ==> (#[trigger] cycles[i]).host.memory_ordered(),
    ensures
        snapshot_after(cycles).ram_ordered(),
    decreases cycles.len(),
{
    if cycles.len() > 0 {
        lemma_ram_stays_ordered(cycles.drop_last());
        lemma_ram_ordered_after_host(snapshot_after(cycles.drop_last()), cycles.last().host);
    }
}

/// Writes one whole cycle to a snapshot.
pub fn apply_cycle(metrics: &mut HardwareMetrics, outcome: &CycleOutcome)
    ensures
        final(metrics)@ == old(metrics)@.after_cycle(outcome@),
{
    apply_host_reading(metrics, outcome.host);
    apply_gpu_reading(metrics, &outcome.gpu);
    apply_disk_reading(metrics, outcome.disk);
}

/// The store. It is created with the initial snapshot and only ever changed
/// by [`SnapshotStore::write`], so what it holds is always the result of a
/// whole number of cycles.
pub struct SnapshotStore {
    current: HardwareMetrics,
    written: Ghost<Seq<CycleOutcomeView>>,
}

impl View for SnapshotStore {
    type V = MetricsView;

    closed spec fn view(&self) -> MetricsView {
        self.current@
    }
}

impl SnapshotStore {
    #[verifier::type_invariant]
    spec fn holds_whole_cycles(self) -> bool {
        self.current@ == snapshot_after(self.written@)
    }

    /// The cycles written so far, oldest first.
    pub closed spec fn cycles(&self) -> Seq<CycleOutcomeView> {
        self.written@
    }

    /// A store that holds the initial snapshot.
    pub fn new() -> (store: Self)
        ensures
            store.cycles() == Seq::<CycleOutcomeView>::empty(),
            store@ == MetricsView::initial(),
    {
        SnapshotStore { current: HardwareMetrics::default(), written: Ghost(Seq::empty()) }
    }

    /// A copy of the current snapshot. Every field of it comes from the same
    /// state: the one reached after all cycles written so far.
    pub fn read(&self) -> (snapshot: HardwareMetrics)
        ensures
            snapshot@ == self@,
            snapshot@ == snapshot_after(self.cycles()),
    {
        proof {
            use_type_invariant(self);
        }
        self.current.clone()
    }

    /// Writes one whole cycle. No state in between the old snapshot and the
    /// new one is ever held by the store.
    pub fn write(&mut self, outcome: &CycleOutcome)
        ensures
            final(self)@ == old(self)@.after_cycle(outcome@),
            final(self)@.shows_whole_cycle(old(self)@, outcome@),
            final(self).cycles() == old(self).cycles().push(outcome@),
            old(self)@.ram_ordered() && outcome.host.memory_ordered()
                ==> final(self)@.ram_ordered(),
    {
        proof {
            use_type_invariant(&*self);
        }
        let ghost before = self.written@;
        let mut next = self.current.clone();
        apply_cycle(&mut next, outcome);
        proof {
            lemma_snapshot_after_push(before, outcome@);
            if self.current@.ram_ordered() && outcome.host.memory_ordered() {
                lemma_ram_ordered_after_host(self.current@, outcome.host);
            }
        }
        *self = SnapshotStore { current: next, written: Ghost(before.push(outcome@)) };
    }
}

} // verus!
