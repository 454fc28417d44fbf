//! The sampler: the adapters, opened once, and the sampling cycle that
//! reads them in turn and writes the result to the store.
//!
//! A `Sampler` value is the running state. Start-up is its construction,
//! and nothing takes it apart again: it runs until the process ends. The
//! caller owns the loop, the host's session and the lock around the store.
//! It refreshes the session before each cycle and sleeps after it for the
//! pause that the cycle asks for.

use vstd::prelude::*;
use crate::disk::{DiskAdapter, DiskCounters, DiskOpenOutcome, DiskPoll};
use crate::gpu::GpuAdapter;
use crate::host::{read_session, reading_held};
use crate::store::{CycleOutcome, SnapshotStore};

verus! {

/// The pause between the end of one cycle and the start of the next, in
/// milliseconds. The time that sampling takes comes on top of it.
pub const SAMPLE_INTERVAL_MS: u64 = 500;

/// The sum of a sequence of durations.
pub open spec fn total_ms(durations: Seq<nat>) -> nat
    decreases durations.len(),
{
    if durations.len() == 0 {
        0
    } else {
        total_ms(durations.drop_last()) + durations.last()
    }
}

/// Cadence. A cycle's period is the time its sampling takes plus its pause.
/// Where every pause lasts at least the interval, any number of cycles
/// takes at least that number of intervals; sampling time only adds to it.
/// Where sampling takes no time and every pause is exactly the interval,
/// the cycles take exactly that number of intervals.
pub proof fn lemma_cycles_take_at_least_their_pauses(sampling_ms: Seq<nat>, pause_ms: Seq<nat>)
    requires
        sampling_ms.len() == pause_ms.len(),
        forall|i: int| 0 <= i < pause_ms.len() ==> #[trigger] pause_ms[i] >= SAMPLE_INTERVAL_MS,
    ensures
        total_ms(sampling_ms) + total_ms(pause_ms) >= pause_ms.len() * SAMPLE_INTERVAL_MS,
        (forall|i: int|
            0 <= i < pause_ms.len() ==> #[trigger] pause_ms[i] == SAMPLE_INTERVAL_MS
                && sampling_ms[i] == 0) ==> total_ms(sampling_ms) + total_ms(pause_ms)
            == pause_ms.len() * SAMPLE_INTERVAL_MS,
    decreases pause_ms.len(),
{
    if pause_ms.len() > 0 {
        lemma_cycles_take_at_least_their_pauses(sampling_ms.drop_last(), pause_ms.drop_last());
        assert(pause_ms.len() * SAMPLE_INTERVAL_MS == (pause_ms.len() - 1) * SAMPLE_INTERVAL_MS
            + SAMPLE_INTERVAL_MS) by (nonlinear_arith);
    }
}

/// Pauses that are all one interval long add up to their number times the
/// interval.
pub proof fn lemma_interval_pauses_total(pause_ms: Seq<nat>)
    requires
        forall|i: int| 0 <= i < pause_ms.len() ==> #[trigger] pause_ms[i] == SAMPLE_INTERVAL_MS,
    ensures
        total_ms(pause_ms) == pause_ms.len() * SAMPLE_INTERVAL_MS,
    decreases pause_ms.len(),
{
    if pause_ms.len() > 0 {
        lemma_interval_pauses_total(pause_ms.drop_last());
        assert(pause_ms.len() * SAMPLE_INTERVAL_MS == (pause_ms.len() - 1) * SAMPLE_INTERVAL_MS
            + SAMPLE_INTERVAL_MS) by (nonlinear_arith);
    }
}

/// The record of the pauses that a sampler has asked for, one after each
/// cycle. Every one of them is one interval long.
pub struct Pacing {
    requested: Ghost<Seq<nat>>,
}

impl Pacing {
    #[verifier::type_invariant]
    spec fn every_pause_is_one_interval(self) -> bool {
        forall|i: int|
            0 <= i < self.requested@.len() ==> #[trigger] self.requested@[i] == SAMPLE_INTERVAL_MS
    }

    /// The pauses asked for so far, in milliseconds, oldest first.
    pub closed spec fn requested_ms(&self) -> Seq<nat> {
        self.requested@
    }

    /// The record of a sampler that has run no cycle yet.
    pub fn start() -> (pacing: Self)
        ensures
            pacing.requested_ms() == Seq::<nat>::empty(),
    {
        Pacing { requested: Ghost(Seq::empty()) }
    }

    /// Asks for the pause that follows a cycle: one interval. All pauses
    /// asked for so far add up to their number times the interval.
    pub fn request_pause(&mut self) -> (pause_ms: u64)
        ensures
            pause_ms == SAMPLE_INTERVAL_MS,
            final(self).requested_ms() == old(self).requested_ms().push(pause_ms as nat),
            total_ms(final(self).requested_ms()) == final(self).requested_ms().len()
                * SAMPLE_INTERVAL_MS,
    {
        proof {
            use_type_invariant(&*self);
            lemma_interval_pauses_total(self.requested@.push(SAMPLE_INTERVAL_MS as nat));
        }
        self.requested = Ghost(self.requested@.push(SAMPLE_INTERVAL_MS as nat));
        SAMPLE_INTERVAL_MS
    }
}

/// What one cycle hands back to the loop that runs it.
#[derive(Debug, PartialEq, Eq)]
pub struct CycleReport {
    /// What the adapters reported and the store now shows.
    pub outcome: CycleOutcome,
    /// How long to pause before the next cycle, in milliseconds.
    pub pause_ms: u64,
}

/// The adapters of a running sampler. The host's session is the caller's
/// and comes in with each cycle.
pub struct Sampler {
    gpu: GpuAdapter,
    disk: DiskAdapter,
    pacing: Pacing,
}

impl Sampler {
    /// The accelerator adapter.
    pub closed spec fn gpu_adapter(&self) -> GpuAdapter {
        self.gpu
    }

    /// The disk adapter.
    pub closed spec fn disk_adapter(&self) -> DiskAdapter {
        self.disk
    }

    /// The pauses asked for so far, one after each cycle, in milliseconds.
    pub closed spec fn pauses_requested(&self) -> Seq<nat> {
        self.pacing.requested_ms()
    }

    /// A sampler over adapters that were opened already.
    pub fn from_adapters(gpu: GpuAdapter, disk: DiskAdapter) -> (sampler: Self)
        ensures
            sampler.gpu_adapter() == gpu,
            sampler.disk_adapter() == disk,
            sampler.pauses_requested() == Seq::<nat>::empty(),
    {
        Sampler { gpu, disk, pacing: Pacing::start() }
    }

    /// Start-up: tries once to open the accelerator's session and takes the
    /// answers of opening the disk counters. An adapter that fails to open
    /// is inert from then on; the other is not affected.
    pub fn initialize(disk_open: DiskOpenOutcome) -> (sampler: Self)
        ensures
            sampler.disk_adapter() == DiskAdapter::opened(disk_open),
            sampler.pauses_requested() == Seq::<nat>::empty(),
    {
        let gpu = GpuAdapter::open();
        let disk = DiskAdapter::from_open(disk_open);
        Sampler { gpu, disk, pacing: Pacing::start() }
    }

    /// Whether the accelerator adapter is active.
    pub fn gpu_is_active(&self) -> (active: bool)
        ensures
            active == (self.gpu_adapter() is Active),
    {
        self.gpu.is_active()
    }

    /// The handles from which this cycle's disk counters are to be
    /// collected, or `None` where the disk adapter is inert.
    pub fn disk_counters(&self) -> (counters: Option<DiskCounters>)
        ensures
            counters == match self.disk_adapter() {
                DiskAdapter::Active(c) => Some(c),
                DiskAdapter::Unavailable => None::<DiskCounters>,
            },
    {
        self.disk.counters()
    }

    /// Reads all three sources in turn: host, accelerator, disks. The
    /// host's part is what its session holds, which the caller has
    /// refreshed. The disk's answers were collected by the caller. An inert
    /// adapter reads nothing.
    pub fn poll(&self, host: &sysinfo::System, disk_poll: Option<DiskPoll>) -> (outcome:
        CycleOutcome)
        ensures
            outcome.host == reading_held(*host),
            outcome.host.memory_ordered(),
            self.gpu_adapter().may_read(outcome@.gpu),
            outcome.disk == self.disk_adapter().reading_of(disk_poll),
    {
        let host = read_session(host);
        let gpu = self.gpu.poll();
        let disk = self.disk.reading(disk_poll);
        CycleOutcome { host, gpu, disk }
    }

    /// One sampling cycle: reads all sources, writes the whole result to
    /// the store in one step, and asks for the pause that follows. Returns
    /// what was written and the pause. The adapters never change state: an
    /// inert one stays inert. The store is borrowed for the call only, so
    /// the pause comes after the store is free again.
    pub fn cycle(
        &mut self,
        store: &mut SnapshotStore,
        host: &sysinfo::System,
        disk_poll: Option<DiskPoll>,
    ) -> (report: CycleReport)
        ensures
            final(self).gpu_adapter() == old(self).gpu_adapter(),
            final(self).disk_adapter() == old(self).disk_adapter(),
            report.outcome.host == reading_held(*host),
            old(self).gpu_adapter().may_read(report.outcome@.gpu),
            report.outcome.disk == old(self).disk_adapter().reading_of(disk_poll),
            final(store)@ == old(store)@.after_cycle(report.outcome@),
            final(store).cycles() == old(store).cycles().push(report.outcome@),
            old(self).gpu_adapter() is Unavailable ==> final(store)@.same_gpu_fields(old(store)@),
            old(store)@.ram_ordered() ==> final(store)@.ram_ordered(),
            report.pause_ms == SAMPLE_INTERVAL_MS,
            final(self).pauses_requested() == old(self).pauses_requested().push(
                report.pause_ms as nat,
            ),
            total_ms(final(self).pauses_requested()) == final(self).pauses_requested().len()
                * SAMPLE_INTERVAL_MS,
    {
        let outcome = self.poll(host, disk_poll);
        store.write(&outcome);
        let pause_ms = self.pacing.request_pause();
        CycleReport { outcome, pause_ms }
    }
}

} // verus!
