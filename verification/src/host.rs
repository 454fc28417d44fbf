//! The CPU and memory adapter, on top of the `sysinfo` crate.
//!
//! A session holds the counters as of its last refresh. Opening and
//! refreshing it ask the operating system and are the caller's to do, once
//! at start-up and once before each cycle. Reading it is done here: each
//! getter hands back what the session holds.

use vstd::prelude::*;
use crate::snapshot::{CpuPercent, HardwareMetrics, MetricsView};
use crate::units::{gib_of_bytes, lemma_gib_of_bytes_keeps_order, Gibibytes};

verus! {

/// `sysinfo::System`, the host's system-information session. Nothing of its
/// contents is visible to verified code.
#[verifier::external_type_specification]
#[verifier::external_body]
pub struct ExSystem(sysinfo::System);

/// What `System::global_cpu_usage` returns for a session, as the bit
/// pattern of the single-precision percentage.
pub uninterp spec fn cpu_usage_bits_held(system: sysinfo::System) -> u32;

/// What `System::total_memory` returns for a session: the installed memory
/// that it holds, in bytes.
pub uninterp spec fn total_bytes_held(system: sysinfo::System) -> u64;

/// What `System::available_memory` returns for a session: the available
/// memory that it holds, in bytes.
pub uninterp spec fn available_bytes_held(system: sysinfo::System) -> u64;

/// What `System::used_memory` returns for a session whose available memory
/// does not exceed its installed memory: the memory in use, in bytes.
pub uninterp spec fn used_bytes_held(system: sysinfo::System) -> u64;

/// `System::total_memory` reads the installed memory that the session
/// holds, in bytes.
pub assume_specification[ sysinfo::System::total_memory ](system: &sysinfo::System) -> (bytes:
    u64)
    ensures
        bytes == total_bytes_held(*system),
;

/// `System::available_memory` reads the available memory that the session
/// holds, in bytes.
pub assume_specification[ sysinfo::System::available_memory ](system: &sysinfo::System) -> (bytes:
    u64)
    ensures
        bytes == available_bytes_held(*system),
;

/// `System::used_memory` gives the memory in use that the session holds, in
/// bytes. On Linux and Windows it subtracts the available memory from the
/// installed memory, unchecked, so a session that holds more available than
/// installed memory is left out.
pub assume_specification[ sysinfo::System::used_memory ](system: &sysinfo::System) -> (bytes:
    u64)
    requires
        available_bytes_held(*system) <= total_bytes_held(*system),
    ensures
        bytes == used_bytes_held(*system),
;

/// Calls `System::global_cpu_usage`, which reads the utilisation of all
/// CPUs together that the session holds, a single-precision percentage,
/// and hands the value on as its bit pattern.
#[verifier::external_body]
fn global_cpu_usage_bits(system: &sysinfo::System) -> (bits: u32)
    ensures
        bits == cpu_usage_bits_held(*system),
{
    system.global_cpu_usage().to_bits()
}

/// Used and installed host memory, in bytes.
#[derive(Clone, Copy, Debug, PartialEq, Eq, Structural)]
pub struct HostMemory {
    /// Memory in use.
    pub used_bytes: u64,
    /// Memory installed.
    pub total_bytes: u64,
}

/// What the host reported in one sampling cycle, in the source's own units.
#[derive(Clone, Copy, Debug, PartialEq, Eq, Structural)]
pub struct HostReading {
    /// Global CPU utilisation in percent.
    pub cpu_usage: CpuPercent,
    /// Memory, or `None` where what the session held was not consistent:
    /// more available than installed memory, or more used than installed.
    pub memory: Option<HostMemory>,
}

impl HostReading {
    /// Whether the memory of this reading, where it has any, has used
    /// bytes at most installed bytes.
    pub open spec fn memory_ordered(self) -> bool {
        self.memory matches Some(memory) ==> memory.used_bytes <= memory.total_bytes
    }
}

/// The memory reading for the given used and installed bytes: kept only
/// where the used bytes are at most the installed bytes.
pub open spec fn ordered_memory(used_bytes: u64, total_bytes: u64) -> Option<HostMemory> {
    if used_bytes <= total_bytes {
        Some(HostMemory { used_bytes, total_bytes })
    } else {
        None
    }
}

impl HostMemory {
    /// Keeps a memory reading only where the used bytes are at most the
    /// installed bytes.
    pub fn ordered(used_bytes: u64, total_bytes: u64) -> (memory: Option<Self>)
        ensures
            memory == ordered_memory(used_bytes, total_bytes),
    {
        if used_bytes <= total_bytes {
            Some(HostMemory { used_bytes, total_bytes })
        } else {
            None
        }
    }
}

/// Whether the memory in use can be asked for, given the available and the
/// installed memory that the session holds.
pub open spec fn memory_is_consistent(available_bytes: u64, total_bytes: u64) -> bool {
    available_bytes <= total_bytes
}

/// The reading that a session holds: its CPU utilisation, and its memory
/// where the memory in use can be asked for and is at most the installed
/// memory.
pub open spec fn reading_held(system: sysinfo::System) -> HostReading {
    HostReading {
        cpu_usage: CpuPercent { bits: cpu_usage_bits_held(system) },
        memory: if memory_is_consistent(available_bytes_held(system), total_bytes_held(system)) {
            ordered_memory(used_bytes_held(system), total_bytes_held(system))
        } else {
            None
        },
    }
}

/// Whatever a session holds, the memory of its reading is ordered.
pub proof fn lemma_reading_held_is_ordered(system: sysinfo::System)
    ensures
        reading_held(system).memory_ordered(),
{
}

impl MetricsView {
    /// The snapshot after a host reading was written to it: the CPU field
    /// is that of the reading; the memory fields are those of the reading
    /// divided by 2^30, or as before where the reading has no memory; all
    /// other fields are as before.
    pub open spec fn with_host(self, reading: HostReading) -> MetricsView {
        MetricsView {
            cpu_usage_bits: reading.cpu_usage.bits,
            ram_used_gb: match reading.memory {
                Some(memory) => gib_of_bytes(memory.used_bytes as nat),
                None => self.ram_used_gb,
            },
            ram_total_gb: match reading.memory {
                Some(memory) => gib_of_bytes(memory.total_bytes as nat),
                None => self.ram_total_gb,
            },
            ..self
        }
    }
}

/// Where the snapshot has used memory at most installed memory, and the
/// host reports no memory or used memory at most installed memory, the
/// snapshot still has used memory at most installed memory afterwards.
/// Where memory is reported, both fields are the host's bytes divided by
/// 2^30.
pub proof fn lemma_ram_ordered_after_host(before: MetricsView, reading: HostReading)
    requires
        before.ram_ordered(),
        reading.memory_ordered(),
    ensures
        before.with_host(reading).ram_ordered(),
        reading.memory matches Some(memory) ==> {
            &&& before.with_host(reading).ram_used_gb.whole == memory.used_bytes / 1_073_741_824
            &&& before.with_host(reading).ram_total_gb.whole == memory.total_bytes
                / 1_073_741_824
            &&& before.with_host(reading).ram_used_gb.whole <= before.with_host(
                reading,
            ).ram_total_gb.whole
        },
{
    if let Some(memory) = reading.memory {
        lemma_gib_of_bytes_keeps_order(memory.used_bytes as nat, memory.total_bytes as nat);
    }
}

/// Writes a host reading to the snapshot.
pub fn apply_host_reading(metrics: &mut HardwareMetrics, reading: HostReading)
    ensures
        final(metrics)@ == old(metrics)@.with_host(reading),
{
    metrics.cpu_usage_percent = reading.cpu_usage;
    if let Some(memory) = reading.memory {
        metrics.ram_used_gb = Gibibytes::from_bytes(memory.used_bytes);
        metrics.ram_total_gb = Gibibytes::from_bytes(memory.total_bytes);
    }
}

/// Whether the memory in use can be asked for.
pub fn memory_can_be_read(available_bytes: u64, total_bytes: u64) -> (consistent: bool)
    ensures
        consistent == memory_is_consistent(available_bytes, total_bytes),
{
    available_bytes <= total_bytes
}

/// Reads what a session holds: CPU utilisation, and used and installed
/// memory. The memory in use is asked for only where the session's
/// available memory does not exceed its installed memory, and kept only
/// where it is at most the installed memory; otherwise the reading has no
/// memory.
pub fn read_session(system: &sysinfo::System) -> (reading: HostReading)
    ensures
        reading == reading_held(*system),
        reading.memory_ordered(),
{
    let bits: u32 = global_cpu_usage_bits(system);
    let total_bytes: u64 = system.total_memory();
    let available_bytes: u64 = system.available_memory();
    let memory = if memory_can_be_read(available_bytes, total_bytes) {
        HostMemory::ordered(system.used_memory(), total_bytes)
    } else {
        None
    };
    HostReading { cpu_usage: CpuPercent::from_bits(bits), memory }
}

} // verus!
