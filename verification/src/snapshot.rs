//! The metrics snapshot: the one value that the sampler writes and the
//! presentation side reads.

use vstd::prelude::*;
use crate::units::{gib_of_bytes, GibView, Gibibytes};

verus! {

/// A CPU utilisation percentage as the source reports it: a single-precision
/// IEEE-754 value. Verified code does not compute with it, so it is carried
/// as its bit pattern and turned back into a number where it is displayed.
#[derive(Clone, Copy, Debug, PartialEq, Eq, Structural)]
pub struct CpuPercent {
    pub bits: u32,
}

impl CpuPercent {
    /// The percentage with the given bit pattern.
    pub fn from_bits(bits: u32) -> (percent: Self)
        ensures
            percent.bits == bits,
    {
        CpuPercent { bits }
    }

    /// The bit pattern of this percentage.
    pub fn to_bits(&self) -> (bits: u32)
        ensures
            bits == self.bits,
    {
        self.bits
    }

    /// Zero percent; positive zero has the all-zero bit pattern.
    pub fn zero() -> (percent: Self)
        ensures
            percent.bits == 0,
    {
        CpuPercent { bits: 0 }
    }
}

/// The latest merged reading of all sources, in canonical units.
///
/// The snapshot is always complete: a source that is absent or fails leaves
/// its fields at the last value written, or at the initial value.
#[derive(Debug, PartialEq, Eq)]
pub struct HardwareMetrics {
    /// Global CPU utilisation in percent.
    pub cpu_usage_percent: CpuPercent,
    /// Memory in use.
    pub ram_used_gb: Gibibytes,
    /// Memory installed.
    pub ram_total_gb: Gibibytes,
    /// Name of the first accelerator.
    pub gpu_name: String,
    /// PCIe throughput in the send direction, bytes per second.
    pub gpu_pcie_tx_bps: u64,
    /// PCIe throughput in the receive direction, bytes per second.
    pub gpu_pcie_rx_bps: u64,
    /// Accelerator memory in use, whole mebibytes.
    pub gpu_vram_used_mb: u64,
    /// Accelerator memory installed, whole mebibytes.
    pub gpu_vram_total_mb: u64,
    /// Bytes per second read from all physical disks together.
    pub disk_read_bps: u64,
    /// Bytes per second written to all physical disks together.
    pub disk_write_bps: u64,
}

/// The mathematical content of a [`HardwareMetrics`].
pub struct MetricsView {
    pub cpu_usage_bits: u32,
    pub ram_used_gb: GibView,
    pub ram_total_gb: GibView,
    pub gpu_name: Seq<char>,
    pub gpu_pcie_tx_bps: nat,
    pub gpu_pcie_rx_bps: nat,
    pub gpu_vram_used_mb: nat,
    pub gpu_vram_total_mb: nat,
    pub disk_read_bps: nat,
    pub disk_write_bps: nat,
}

impl View for HardwareMetrics {
    type V = MetricsView;

    open spec fn view(&self) -> MetricsView {
        MetricsView {
            cpu_usage_bits: self.cpu_usage_percent.bits,
            ram_used_gb: self.ram_used_gb@,
            ram_total_gb: self.ram_total_gb@,
            gpu_name: self.gpu_name@,
            gpu_pcie_tx_bps: self.gpu_pcie_tx_bps as nat,
            gpu_pcie_rx_bps: self.gpu_pcie_rx_bps as nat,
            gpu_vram_used_mb: self.gpu_vram_used_mb as nat,
            gpu_vram_total_mb: self.gpu_vram_total_mb as nat,
            disk_read_bps: self.disk_read_bps as nat,
            disk_write_bps: self.disk_write_bps as nat,
        }
    }
}

impl MetricsView {
    /// The snapshot before any source has been read: every number zero and
    /// the accelerator still being looked for.
    pub open spec fn initial() -> MetricsView {
        MetricsView {
            cpu_usage_bits: 0,
            ram_used_gb: gib_of_bytes(0),
            ram_total_gb: gib_of_bytes(0),
            gpu_name: "Detecting..."@,
            gpu_pcie_tx_bps: 0,
            gpu_pcie_rx_bps: 0,
            gpu_vram_used_mb: 0,
            gpu_vram_total_mb: 0,
            disk_read_bps: 0,
            disk_write_bps: 0,
        }
    }

    /// Used memory does not exceed installed memory.
    pub open spec fn ram_ordered(self) -> bool {
        self.ram_used_gb.at_most(self.ram_total_gb)
    }

    /// Whether the five accelerator fields are those of `other`.
    pub open spec fn same_gpu_fields(self, other: MetricsView) -> bool {
        &&& self.gpu_name == other.gpu_name
        &&& self.gpu_pcie_tx_bps == other.gpu_pcie_tx_bps
        &&& self.gpu_pcie_rx_bps == other.gpu_pcie_rx_bps
        &&& self.gpu_vram_used_mb == other.gpu_vram_used_mb
        &&& self.gpu_vram_total_mb == other.gpu_vram_total_mb
    }
}

impl Default for HardwareMetrics {
    fn default() -> (metrics: Self)
        ensures
            metrics@ == MetricsView::initial(),
    {
        HardwareMetrics {
            cpu_usage_percent: CpuPercent::zero(),
            ram_used_gb: Gibibytes::zero(),
            ram_total_gb: Gibibytes::zero(),
            gpu_name: "Detecting...".to_string(),
            gpu_pcie_tx_bps: 0,
            gpu_pcie_rx_bps: 0,
            gpu_vram_used_mb: 0,
            gpu_vram_total_mb: 0,
            disk_read_bps: 0,
            disk_write_bps: 0,
        }
    }
}

impl Clone for HardwareMetrics {
    fn clone(&self) -> (copy: Self)
        ensures
            copy@ == self@,
    {
        HardwareMetrics {
            cpu_usage_percent: self.cpu_usage_percent,
            ram_used_gb: self.ram_used_gb,
            ram_total_gb: self.ram_total_gb,
            gpu_name: self.gpu_name.clone(),
            gpu_pcie_tx_bps: self.gpu_pcie_tx_bps,
            gpu_pcie_rx_bps: self.gpu_pcie_rx_bps,
            gpu_vram_used_mb: self.gpu_vram_used_mb,
            gpu_vram_total_mb: self.gpu_vram_total_mb,
            disk_read_bps: self.disk_read_bps,
            disk_write_bps: self.disk_write_bps,
        }
    }
}

} // verus!
