//! The disk adapter's decisions. The operating system's performance-counter
//! interface is reached from outside this library; what it answered comes in
//! as status codes, handles and values, and the rules on them are here.

use vstd::prelude::*;
use crate::snapshot::{HardwareMetrics, MetricsView};

verus! {

/// The status with which a performance-counter call reports success.
pub const STATUS_SUCCESS: u32 = 0;

/// Counter path of the bytes read per second from all physical disks.
pub const READ_COUNTER_PATH: &'static str = "\\PhysicalDisk(_Total)\\Disk Read Bytes/sec";

/// Counter path of the bytes written per second to all physical disks.
pub const WRITE_COUNTER_PATH: &'static str = "\\PhysicalDisk(_Total)\\Disk Write Bytes/sec";

/// Whether a performance-counter call succeeded.
pub fn succeeded(status: u32) -> (ok: bool)
    ensures
        ok == (status == STATUS_SUCCESS),
{
    status == STATUS_SUCCESS
}

/// The answer to registering one counter with a query.
#[derive(Clone, Copy, Debug, PartialEq, Eq, Structural)]
pub struct CounterRegistration {
    /// Status of the call.
    pub status: u32,
    /// Handle of the counter, meaningful where the call succeeded.
    pub counter: isize,
}

/// The answers to opening the query and registering the two counters.
/// A registration that was never attempted is `None`.
#[derive(Clone, Copy, Debug, PartialEq, Eq, Structural)]
pub struct DiskOpenOutcome {
    /// Status of opening the query.
    pub open_status: u32,
    /// Handle of the query, meaningful where opening succeeded.
    pub query: isize,
    /// Registration of the read counter.
    pub read: Option<CounterRegistration>,
    /// Registration of the write counter.
    pub write: Option<CounterRegistration>,
}

/// The handles of an open query and its two counters.
#[derive(Clone, Copy, Debug, PartialEq, Eq, Structural)]
pub struct DiskCounters {
    pub query: isize,
    pub read_counter: isize,
    pub write_counter: isize,
}

/// The disk adapter: either inert for good, or holding the handles that
/// were opened at start-up.
#[derive(Clone, Copy, Debug, PartialEq, Eq, Structural)]
pub enum DiskAdapter {
    /// The query or one of its counters could not be set up. Nothing is
    /// collected and nothing is retried.
    Unavailable,
    /// Query and counters are registered.
    Active(DiskCounters),
}

/// Whether the query was opened: the call succeeded and gave a handle.
pub open spec fn query_opened(open_status: u32, query: isize) -> bool {
    open_status == STATUS_SUCCESS && query != 0
}

/// Whether a counter was registered: the attempt was made and succeeded.
pub open spec fn counter_registered(registration: Option<CounterRegistration>) -> bool {
    registration matches Some(r) && r.status == STATUS_SUCCESS
}

impl DiskAdapter {
    /// The adapter that the given answers lead to: active only where the
    /// query was opened and both counters were registered.
    pub open spec fn opened(outcome: DiskOpenOutcome) -> DiskAdapter {
        if query_opened(outcome.open_status, outcome.query) && counter_registered(outcome.read)
            && counter_registered(outcome.write) {
            DiskAdapter::Active(
                DiskCounters {
                    query: outcome.query,
                    read_counter: outcome.read->Some_0.counter,
                    write_counter: outcome.write->Some_0.counter,
                },
            )
        } else {
            DiskAdapter::Unavailable
        }
    }

    /// Decides from the answers of start-up whether the adapter is active.
    pub fn from_open(outcome: DiskOpenOutcome) -> (adapter: Self)
        ensures
            adapter == DiskAdapter::opened(outcome),
    {
        if !query_was_opened(outcome.open_status, outcome.query) {
            return DiskAdapter::Unavailable;
        }
        match (outcome.read, outcome.write) {
            (Some(read), Some(write)) => {
                if succeeded(read.status) && succeeded(write.status) {
                    DiskAdapter::Active(
                        DiskCounters {
                            query: outcome.query,
                            read_counter: read.counter,
                            write_counter: write.counter,
                        },
                    )
                } else {
                    DiskAdapter::Unavailable
                }
            },
            _ => DiskAdapter::Unavailable,
        }
    }

    /// The handles to collect from, or `None` where the adapter is inert.
    pub fn counters(&self) -> (counters: Option<DiskCounters>)
        ensures
            counters == match *self {
                DiskAdapter::Active(c) => Some(c),
                DiskAdapter::Unavailable => None::<DiskCounters>,
            },
    {
        match self {
            DiskAdapter::Active(c) => Some(*c),
            DiskAdapter::Unavailable => None,
        }
    }

    /// The disk's part of a cycle for this adapter and the given answers.
    /// An inert adapter reads nothing, whatever the answers say.
    pub open spec fn reading_of(self, poll: Option<DiskPoll>) -> DiskReading {
        match (self, poll) {
            (DiskAdapter::Active(_), Some(p)) => DiskReading::of_poll(p),
            _ => DiskReading::nothing(),
        }
    }

    /// Turns the answers of one collection into the disk's part of a cycle.
    pub fn reading(&self, poll: Option<DiskPoll>) -> (reading: DiskReading)
        ensures
            reading == self.reading_of(poll),
    {
        match (self, poll) {
            (DiskAdapter::Active(_), Some(p)) => DiskReading::from_poll(p),
            _ => DiskReading::skipped(),
        }
    }
}

/// Whether, after these answers to opening the query, the counters are to
/// be registered.
pub fn query_was_opened(open_status: u32, query: isize) -> (opened: bool)
    ensures
        opened == query_opened(open_status, query),
{
    succeeded(open_status) && query != 0
}

/// The answer to formatting one counter as a number.
#[derive(Clone, Copy, Debug, PartialEq, Eq, Structural)]
pub struct CounterValue {
    /// Status of the call.
    pub status: u32,
    /// The counter's value, its fraction cut off; meaningful where the call
    /// succeeded.
    pub value: u64,
}

/// The answers of one cycle: collecting fresh data, then formatting each
/// counter. A counter that was not formatted is `None`.
#[derive(Clone, Copy, Debug, PartialEq, Eq, Structural)]
pub struct DiskPoll {
    /// Status of collecting.
    pub collect_status: u32,
    /// The read counter.
    pub read: Option<CounterValue>,
    /// The write counter.
    pub write: Option<CounterValue>,
}

/// The disk's part of one sampling cycle, in bytes per second. `None`
/// stands for a value that was not obtained.
#[derive(Clone, Copy, Debug, PartialEq, Eq, Structural)]
pub struct DiskReading {
    pub read_bps: Option<u64>,
    pub write_bps: Option<u64>,
}

/// The value of a counter, where it was formatted successfully.
pub open spec fn counter_value(counter: Option<CounterValue>) -> Option<u64> {
    match counter {
        Some(c) => if c.status == STATUS_SUCCESS {
            Some(c.value)
        } else {
            None
        },
        None => None,
    }
}

fn value_of(counter: Option<CounterValue>) -> (value: Option<u64>)
    ensures
        value == counter_value(counter),
{
    match counter {
        Some(c) => if succeeded(c.status) {
            Some(c.value)
        } else {
            None
        },
        None => None,
    }
}

impl DiskReading {
    /// The reading of a cycle in which nothing was obtained.
    pub open spec fn nothing() -> DiskReading {
        DiskReading { read_bps: None, write_bps: None }
    }

    /// The reading that the answers of one cycle amount to: nothing where
    /// collecting failed, else each counter on its own.
    pub open spec fn of_poll(poll: DiskPoll) -> DiskReading {
        if poll.collect_status == STATUS_SUCCESS {
            DiskReading {
                read_bps: counter_value(poll.read),
                write_bps: counter_value(poll.write),
            }
        } else {
            DiskReading::nothing()
        }
    }

    /// The reading of a cycle in which nothing was obtained.
    pub fn skipped() -> (reading: Self)
        ensures
            reading == DiskReading::nothing(),
    {
        DiskReading { read_bps: None, write_bps: None }
    }

    /// Turns the answers of one cycle into a reading.
    pub fn from_poll(poll: DiskPoll) -> (reading: Self)
        ensures
            reading == DiskReading::of_poll(poll),
    {
        if succeeded(poll.collect_status) {
            DiskReading { read_bps: value_of(poll.read), write_bps: value_of(poll.write) }
        } else {
            DiskReading::skipped()
        }
    }
}

impl MetricsView {
    /// The snapshot after the disk's part of a cycle was written to it: a
    /// value that was not obtained leaves its field as it was.
    pub open spec fn with_disk(self, reading: DiskReading) -> MetricsView {
        MetricsView {
            disk_read_bps: match reading.read_bps {
                Some(bps) => bps as nat,
                None => self.disk_read_bps,
            },
            disk_write_bps: match reading.write_bps {
                Some(bps) => bps as nat,
                None => self.disk_write_bps,
            },
            ..self
        }
    }
}

/// Writes the disk's part of a cycle to the snapshot.
pub fn apply_disk_reading(metrics: &mut HardwareMetrics, reading: DiskReading)
    ensures
        final(metrics)@ == old(metrics)@.with_disk(reading),
{
    if let Some(bps) = reading.read_bps {
        metrics.disk_read_bps = bps;
    }
    if let Some(bps) = reading.write_bps {
        metrics.disk_write_bps = bps;
    }
}

} // verus!
