//! The accelerator adapter, on top of the `nvml_wrapper` crate (NVIDIA's
//! management library). Only the device with index 0 is read.

use vstd::prelude::*;
use crate::snapshot::{HardwareMetrics, MetricsView};
use crate::units::{bytes_per_sec_of_kib, bytes_to_mib, kib_per_sec_to_bytes_per_sec, mib_of_bytes};

verus! {

/// Index of the one device that is read: the first that the management
/// library lists.
pub const DEVICE_INDEX: u32 = 0;

/// `nvml_wrapper::Nvml`, an open session with the management library.
#[verifier::external_type_specification]
#[verifier::external_body]
pub struct ExNvml(nvml_wrapper::Nvml);

/// `nvml_wrapper::Device`, the handle of one device, borrowed from a session.
#[verifier::external_type_specification]
#[verifier::external_body]
pub struct ExDevice<'nvml>(nvml_wrapper::Device<'nvml>);

/// `nvml_wrapper::error::NvmlError`, the error of every call into the library.
#[verifier::external_type_specification]
#[verifier::external_body]
pub struct ExNvmlError(nvml_wrapper::error::NvmlError);

/// `Nvml::init` loads the management library and initialises it. Whether
/// that succeeds depends on the driver installed, so nothing is claimed.
pub assume_specification[ nvml_wrapper::Nvml::init ]() -> (session: Result<
    nvml_wrapper::Nvml,
    nvml_wrapper::error::NvmlError,
>);

/// `Nvml::device_by_index` asks for the handle of the device with the given
/// index. Whether there is one depends on the hardware, so nothing is claimed.
pub assume_specification<'a>[ nvml_wrapper::Nvml::device_by_index ](
    nvml: &'a nvml_wrapper::Nvml,
    index: u32,
) -> (device: Result<nvml_wrapper::Device<'a>, nvml_wrapper::error::NvmlError>);

/// `Device::name` asks the device for its product name. The answer depends
/// on the hardware, so nothing is claimed.
pub assume_specification<'nvml>[ nvml_wrapper::Device::<'nvml>::name ](
    device: &nvml_wrapper::Device<'nvml>,
) -> (name: Result<String, nvml_wrapper::error::NvmlError>);

/// The two directions in which PCIe throughput is counted.
#[derive(Clone, Copy, Debug, PartialEq, Eq, Structural)]
pub enum PcieDirection {
    /// Bytes that the device sends.
    Send,
    /// Bytes that the device receives.
    Receive,
}

/// Used and installed accelerator memory, in bytes.
#[derive(Clone, Copy, Debug, PartialEq, Eq, Structural)]
pub struct VramBytes {
    pub used: u64,
    pub total: u64,
}

/// Calls `Device::pcie_throughput` with the counter for the given direction.
/// It returns the throughput over the last 20 ms in kibibytes per second, or
/// an error. The value depends on the hardware, so nothing is claimed of it.
#[verifier::external_body]
fn pcie_throughput(device: &nvml_wrapper::Device<'_>, direction: PcieDirection) -> (kib_per_sec:
    Result<u32, nvml_wrapper::error::NvmlError>) {
    let counter = match direction {
        PcieDirection::Send => nvml_wrapper::enum_wrappers::device::PcieUtilCounter::Send,
        PcieDirection::Receive => nvml_wrapper::enum_wrappers::device::PcieUtilCounter::Receive,
    };
    device.pcie_throughput(counter)
}

/// Calls `Device::memory_info` and keeps the `used` and `total` fields of
/// what it returns, both in bytes. The values depend on the hardware, so
/// nothing is claimed of them.
#[verifier::external_body]
fn memory_info(device: &nvml_wrapper::Device<'_>) -> (memory: Result<
    VramBytes,
    nvml_wrapper::error::NvmlError,
>) {
    match device.memory_info() {
        Ok(info) => Ok(VramBytes { used: info.used, total: info.total }),
        Err(error) => Err(error),
    }
}

/// What device 0 reported in one sampling cycle, in the source's own units.
/// Each read can fail on its own; `None` stands for a read that failed.
#[derive(Debug, PartialEq, Eq)]
pub struct DeviceReading {
    /// Product name.
    pub name: Option<String>,
    /// Send throughput, kibibytes per second.
    pub pcie_tx_kib_per_sec: Option<u32>,
    /// Receive throughput, kibibytes per second.
    pub pcie_rx_kib_per_sec: Option<u32>,
    /// Used and installed memory, bytes.
    pub memory: Option<VramBytes>,
}

/// The mathematical content of a [`DeviceReading`].
pub struct DeviceReadingView {
    pub name: Option<Seq<char>>,
    pub pcie_tx_kib_per_sec: Option<u32>,
    pub pcie_rx_kib_per_sec: Option<u32>,
    pub memory: Option<VramBytes>,
}

impl View for DeviceReading {
    type V = DeviceReadingView;

    open spec fn view(&self) -> DeviceReadingView {
        DeviceReadingView {
            name: match self.name {
                Some(name) => Some(name@),
                None => None,
            },
            pcie_tx_kib_per_sec: self.pcie_tx_kib_per_sec,
            pcie_rx_kib_per_sec: self.pcie_rx_kib_per_sec,
            memory: self.memory,
        }
    }
}

/// The accelerator's part of one sampling cycle: the reading of device 0, or
/// `None` where the adapter is inert or the device could not be reached.
#[derive(Debug, PartialEq, Eq)]
pub struct GpuReading {
    pub device: Option<DeviceReading>,
}

impl View for GpuReading {
    type V = Option<DeviceReadingView>;

    open spec fn view(&self) -> Option<DeviceReadingView> {
        match self.device {
            Some(device) => Some(device@),
            None => None,
        }
    }
}

/// The name shown for a device that is present but does not report a name.
pub open spec fn unknown_gpu_name() -> Seq<char> {
    "Unknown GPU"@
}

impl MetricsView {
    /// The snapshot after the reading of a reachable device was written to
    /// it. The name is always written, so that the label tells whether the
    /// device answers now. A throughput or memory read that failed leaves its
    /// field as it was.
    pub open spec fn with_device(self, reading: DeviceReadingView) -> MetricsView {
        MetricsView {
            gpu_name: match reading.name {
                Some(name) => name,
                None => unknown_gpu_name(),
            },
            gpu_pcie_tx_bps: match reading.pcie_tx_kib_per_sec {
                Some(kib) => bytes_per_sec_of_kib(kib as nat),
                None => self.gpu_pcie_tx_bps,
            },
            gpu_pcie_rx_bps: match reading.pcie_rx_kib_per_sec {
                Some(kib) => bytes_per_sec_of_kib(kib as nat),
                None => self.gpu_pcie_rx_bps,
            },
            gpu_vram_used_mb: match reading.memory {
                Some(memory) => mib_of_bytes(memory.used as nat),
                None => self.gpu_vram_used_mb,
            },
            gpu_vram_total_mb: match reading.memory {
                Some(memory) => mib_of_bytes(memory.total as nat),
                None => self.gpu_vram_total_mb,
            },
            ..self
        }
    }

    /// The snapshot after the accelerator's part of a cycle was written to
    /// it: unchanged where no device was read.
    pub open spec fn with_gpu(self, reading: Option<DeviceReadingView>) -> MetricsView {
        match reading {
            Some(device) => self.with_device(device),
            None => self,
        }
    }
}

/// The two throughput reads fail independently: each field follows its own
/// read and is not affected by how the other read went. In particular, where
/// the send read fails and the receive read succeeds, the send field keeps
/// its value and the receive field is the new value times 1024.
pub proof fn lemma_pcie_reads_independent(before: MetricsView, reading: DeviceReadingView)
    ensures
        before.with_device(reading).gpu_pcie_tx_bps == match reading.pcie_tx_kib_per_sec {
            Some(kib) => kib as nat * 1024,
            None => before.gpu_pcie_tx_bps,
        },
        before.with_device(reading).gpu_pcie_rx_bps == match reading.pcie_rx_kib_per_sec {
            Some(kib) => kib as nat * 1024,
            None => before.gpu_pcie_rx_bps,
        },
{
}

/// Keeps the value of a successful call and drops the error of a failed one.
fn ok_value<T>(result: Result<T, nvml_wrapper::error::NvmlError>) -> (value: Option<T>)
    ensures
        value == match result {
            Ok(v) => Some(v),
            Err(_) => None::<T>,
        },
{
    match result {
        Ok(v) => Some(v),
        Err(_) => None,
    }
}

impl DeviceReading {
    /// Builds the reading from the results of the four reads: each field is
    /// the value of its read where that succeeded and `None` where it failed.
    pub fn from_results(
        name: Result<String, nvml_wrapper::error::NvmlError>,
        pcie_tx: Result<u32, nvml_wrapper::error::NvmlError>,
        pcie_rx: Result<u32, nvml_wrapper::error::NvmlError>,
        memory: Result<VramBytes, nvml_wrapper::error::NvmlError>,
    ) -> (reading: Self)
        ensures
            reading.name == match name {
                Ok(n) => Some(n),
                Err(_) => None::<String>,
            },
            reading.pcie_tx_kib_per_sec == match pcie_tx {
                Ok(kib) => Some(kib),
                Err(_) => None::<u32>,
            },
            reading.pcie_rx_kib_per_sec == match pcie_rx {
                Ok(kib) => Some(kib),
                Err(_) => None::<u32>,
            },
            reading.memory == match memory {
                Ok(m) => Some(m),
                Err(_) => None::<VramBytes>,
            },
    {
        DeviceReading {
            name: ok_value(name),
            pcie_tx_kib_per_sec: ok_value(pcie_tx),
            pcie_rx_kib_per_sec: ok_value(pcie_rx),
            memory: ok_value(memory),
        }
    }
}

impl GpuReading {
    /// The reading of a cycle in which no device was read.
    pub fn skipped() -> (reading: Self)
        ensures
            reading@ is None,
    {
        GpuReading { device: None }
    }
}

/// Writes the accelerator's part of a cycle to the snapshot.
pub fn apply_gpu_reading(metrics: &mut HardwareMetrics, reading: &GpuReading)
    ensures
        final(metrics)@ == old(metrics)@.with_gpu(reading@),
{
    match &reading.device {
        None => {},
        Some(device) => {
            metrics.gpu_name = match &device.name {
                Some(name) => name.clone(),
                None => "Unknown GPU".to_string(),
            };
            if let Some(kib) = device.pcie_tx_kib_per_sec {
                metrics.gpu_pcie_tx_bps = kib_per_sec_to_bytes_per_sec(kib);
            }
            if let Some(kib) = device.pcie_rx_kib_per_sec {
                metrics.gpu_pcie_rx_bps = kib_per_sec_to_bytes_per_sec(kib);
            }
            if let Some(memory) = device.memory {
                metrics.gpu_vram_used_mb = bytes_to_mib(memory.used);
                metrics.gpu_vram_total_mb = bytes_to_mib(memory.total);
            }
        },
    }
}

/// The accelerator adapter: either inert for good, or holding the session
/// that was opened at start-up.
pub enum GpuAdapter {
    /// The session could not be opened. Nothing is read and nothing is
    /// retried.
    Unavailable,
    /// The session is open.
    Active(nvml_wrapper::Nvml),
}

impl GpuAdapter {
    /// Whether a cycle on this adapter can come back with the given reading:
    /// an inert adapter reads no device.
    pub open spec fn may_read(self, reading: Option<DeviceReadingView>) -> bool {
        self is Unavailable ==> reading is None
    }

    /// The adapter for a given result of opening the session: active with
    /// that session where it was opened, inert otherwise.
    pub fn from_init(session: Result<nvml_wrapper::Nvml, nvml_wrapper::error::NvmlError>) -> (adapter:
        Self)
        ensures
            adapter == match session {
                Ok(nvml) => GpuAdapter::Active(nvml),
                Err(_) => GpuAdapter::Unavailable,
            },
    {
        match session {
            Ok(nvml) => GpuAdapter::Active(nvml),
            Err(_) => GpuAdapter::Unavailable,
        }
    }

    /// Tries once to open the session. Whether the adapter comes out active
    /// depends on the driver installed.
    pub fn open() -> (adapter: Self) {
        GpuAdapter::from_init(nvml_wrapper::Nvml::init())
    }

    /// Whether the session is open.
    pub fn is_active(&self) -> (active: bool)
        ensures
            active == (self is Active),
    {
        match self {
            GpuAdapter::Active(_) => true,
            GpuAdapter::Unavailable => false,
        }
    }

    /// Reads the device with index [`DEVICE_INDEX`] once. An inert adapter
    /// makes no call and reads nothing; an active one asks for the device
    /// and, where it is there, for its name, both throughputs and its
    /// memory, each on its own.
    pub fn poll(&self) -> (reading: GpuReading)
        ensures
            self.may_read(reading@),
    {
        match self {
            GpuAdapter::Unavailable => GpuReading::skipped(),
            GpuAdapter::Active(nvml) => {
                match nvml.device_by_index(DEVICE_INDEX) {
                    Ok(device) => {
                        let name = device.name();
                        let pcie_tx = pcie_throughput(&device, PcieDirection::Send);
                        let pcie_rx = pcie_throughput(&device, PcieDirection::Receive);
                        let memory = memory_info(&device);
                        GpuReading {
                            device: Some(
                                DeviceReading::from_results(name, pcie_tx, pcie_rx, memory),
                            ),
                        }
                    },
                    Err(_) => GpuReading::skipped(),
                }
            },
        }
    }
}

} // verus!
