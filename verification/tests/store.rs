use bandwidth_monitor::disk::DiskReading;
use bandwidth_monitor::gpu::{DeviceReading, GpuReading, VramBytes};
use bandwidth_monitor::host::{HostMemory, HostReading};
use bandwidth_monitor::snapshot::{CpuPercent, HardwareMetrics};
use bandwidth_monitor::store::{apply_cycle, CycleOutcome, SnapshotStore};
use bandwidth_monitor::units::Gibibytes;

fn host(cpu: f32, used_bytes: u64, total_bytes: u64) -> HostReading {
    HostReading {
        cpu_usage: CpuPercent::from_bits(cpu.to_bits()),
        memory: Some(HostMemory { used_bytes, total_bytes }),
    }
}

fn gib_as_float(gib: Gibibytes) -> f32 {
    gib.whole() as f32 + gib.remainder_bytes() as f32 / 1_073_741_824.0
}

#[test]
fn new_store_holds_the_default_snapshot() {
    let store = SnapshotStore::new();
    assert_eq!(store.read(), HardwareMetrics::default());
    assert_eq!(store.read().gpu_name, "Detecting...");
}

#[test]
fn one_cycle_without_gpu_driver() {
    let mut store = SnapshotStore::new();
    store.write(&CycleOutcome {
        host: host(42.5, 8 * 1024 * 1024 * 1024, 16 * 1024 * 1024 * 1024),
        gpu: GpuReading::skipped(),
        disk: DiskReading { read_bps: Some(10_485_760), write_bps: Some(2_097_152) },
    });
    let snapshot = store.read();
    assert_eq!(f32::from_bits(snapshot.cpu_usage_percent.to_bits()), 42.5);
    assert_eq!(gib_as_float(snapshot.ram_used_gb), 8.0);
    assert_eq!(gib_as_float(snapshot.ram_total_gb), 16.0);
    assert_eq!(snapshot.gpu_name, "Detecting...");
    assert_eq!(snapshot.gpu_pcie_tx_bps, 0);
    assert_eq!(snapshot.gpu_pcie_rx_bps, 0);
    assert_eq!(snapshot.gpu_vram_used_mb, 0);
    assert_eq!(snapshot.gpu_vram_total_mb, 0);
    assert_eq!(snapshot.disk_read_bps, 10_485_760);
    assert_eq!(snapshot.disk_write_bps, 2_097_152);
}

#[test]
fn a_read_sees_one_whole_cycle() {
    let first = CycleOutcome {
        host: host(10.0, 1 << 30, 4 << 30),
        gpu: GpuReading {
            device: Some(DeviceReading {
                name: Some("Tesla C2070".to_string()),
                pcie_tx_kib_per_sec: Some(1),
                pcie_rx_kib_per_sec: Some(2),
                memory: Some(VramBytes { used: 3 << 20, total: 4 << 20 }),
            }),
        },
        disk: DiskReading { read_bps: Some(100), write_bps: Some(200) },
    };
    let second = CycleOutcome {
        host: host(20.0, 2 << 30, 4 << 30),
        gpu: GpuReading {
            device: Some(DeviceReading {
                name: Some("Tesla C2070".to_string()),
                pcie_tx_kib_per_sec: Some(10),
                pcie_rx_kib_per_sec: Some(20),
                memory: Some(VramBytes { used: 30 << 20, total: 40 << 20 }),
            }),
        },
        disk: DiskReading { read_bps: Some(1000), write_bps: Some(2000) },
    };
    let mut store = SnapshotStore::new();

    store.write(&first);
    let after_first = store.read();
    let mut expected_first = HardwareMetrics::default();
    apply_cycle(&mut expected_first, &first);
    assert_eq!(after_first, expected_first);
    assert_eq!(after_first.ram_used_gb.whole(), 1);
    assert_eq!(after_first.gpu_pcie_tx_bps, 1024);
    assert_eq!(after_first.disk_write_bps, 200);

    store.write(&second);
    let after_second = store.read();
    let mut expected_second = expected_first.clone();
    apply_cycle(&mut expected_second, &second);
    assert_eq!(after_second, expected_second);
    assert_eq!(f32::from_bits(after_second.cpu_usage_percent.to_bits()), 20.0);
    assert_eq!(after_second.ram_used_gb.whole(), 2);
    assert_eq!(after_second.gpu_pcie_tx_bps, 10_240);
    assert_eq!(after_second.gpu_pcie_rx_bps, 20_480);
    assert_eq!(after_second.gpu_vram_used_mb, 30);
    assert_eq!(after_second.gpu_vram_total_mb, 40);
    assert_eq!(after_second.disk_read_bps, 1000);
    assert_eq!(after_second.disk_write_bps, 2000);
}

#[test]
fn reads_between_writes_agree() {
    let mut store = SnapshotStore::new();
    store.write(&CycleOutcome {
        host: host(1.0, 1, 2),
        gpu: GpuReading::skipped(),
        disk: DiskReading { read_bps: Some(3), write_bps: None },
    });
    let one = store.read();
    let two = store.read();
    assert_eq!(one, two);
    assert_eq!(one.disk_read_bps, 3);
    assert_eq!(one.disk_write_bps, 0);
}

#[test]
fn a_copy_that_was_read_does_not_follow_later_writes() {
    let mut store = SnapshotStore::new();
    let before = store.read();
    store.write(&CycleOutcome {
        host: host(1.0, 1, 2),
        gpu: GpuReading::skipped(),
        disk: DiskReading { read_bps: Some(3), write_bps: Some(4) },
    });
    assert_eq!(before, HardwareMetrics::default());
    assert_eq!(store.read().disk_read_bps, 3);
}

#[test]
fn apply_cycle_writes_host_gpu_and_disk() {
    let mut metrics = HardwareMetrics::default();
    apply_cycle(
        &mut metrics,
        &CycleOutcome {
            host: host(55.5, 3 << 30, 8 << 30),
            gpu: GpuReading {
                device: Some(DeviceReading {
                    name: None,
                    pcie_tx_kib_per_sec: Some(1024),
                    pcie_rx_kib_per_sec: None,
                    memory: Some(VramBytes { used: 2_147_483_648, total: 4_294_967_296 }),
                }),
            },
            disk: DiskReading { read_bps: None, write_bps: Some(9) },
        },
    );
    assert_eq!(f32::from_bits(metrics.cpu_usage_percent.to_bits()), 55.5);
    assert_eq!(metrics.ram_used_gb.whole(), 3);
    assert_eq!(metrics.ram_total_gb.whole(), 8);
    assert_eq!(metrics.gpu_name, "Unknown GPU");
    assert_eq!(metrics.gpu_pcie_tx_bps, 1_048_576);
    assert_eq!(metrics.gpu_pcie_rx_bps, 0);
    assert_eq!(metrics.gpu_vram_used_mb, 2048);
    assert_eq!(metrics.gpu_vram_total_mb, 4096);
    assert_eq!(metrics.disk_read_bps, 0);
    assert_eq!(metrics.disk_write_bps, 9);
}

#[test]
fn cycles_without_a_device_keep_the_gpu_defaults() {
    let mut store = SnapshotStore::new();
    for round in 0..20u64 {
        store.write(&CycleOutcome {
            host: host(round as f32, round, round + 1),
            gpu: GpuReading::skipped(),
            disk: DiskReading { read_bps: Some(round), write_bps: Some(round) },
        });
        let snapshot = store.read();
        assert_eq!(snapshot.gpu_name, "Detecting...");
        assert_eq!(snapshot.gpu_pcie_tx_bps, 0);
        assert_eq!(snapshot.gpu_pcie_rx_bps, 0);
        assert_eq!(snapshot.gpu_vram_used_mb, 0);
        assert_eq!(snapshot.gpu_vram_total_mb, 0);
        assert!(snapshot.ram_used_gb.at_most(&snapshot.ram_total_gb));
    }
}

#[test]
fn a_cycle_without_host_memory_keeps_the_memory_of_the_cycle_before() {
    let mut store = SnapshotStore::new();
    store.write(&CycleOutcome {
        host: host(10.0, 2 << 30, 4 << 30),
        gpu: GpuReading::skipped(),
        disk: DiskReading { read_bps: Some(1), write_bps: Some(2) },
    });
    store.write(&CycleOutcome {
        host: HostReading { cpu_usage: CpuPercent::from_bits(20.0f32.to_bits()), memory: None },
        gpu: GpuReading::skipped(),
        disk: DiskReading { read_bps: Some(3), write_bps: Some(4) },
    });
    let snapshot = store.read();
    assert_eq!(f32::from_bits(snapshot.cpu_usage_percent.to_bits()), 20.0);
    assert_eq!(snapshot.ram_used_gb.whole(), 2);
    assert_eq!(snapshot.ram_total_gb.whole(), 4);
    assert_eq!(snapshot.disk_read_bps, 3);
    assert_eq!(snapshot.disk_write_bps, 4);
}
