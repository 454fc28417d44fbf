use bandwidth_monitor::disk::{
    apply_disk_reading, query_was_opened, succeeded, CounterRegistration, CounterValue,
    DiskAdapter, DiskCounters, DiskOpenOutcome, DiskPoll, DiskReading, READ_COUNTER_PATH,
    STATUS_SUCCESS, WRITE_COUNTER_PATH,
};
use bandwidth_monitor::snapshot::HardwareMetrics;

const PDH_CSTATUS_NO_OBJECT: u32 = 0xC000_0BB8;
const PDH_NO_DATA: u32 = 0x8000_07D5;

fn registered(counter: isize) -> Option<CounterRegistration> {
    Some(CounterRegistration { status: 0, counter })
}

fn opened() -> DiskOpenOutcome {
    DiskOpenOutcome { open_status: 0, query: 100, read: registered(101), write: registered(102) }
}

fn value(status: u32, value: u64) -> Option<CounterValue> {
    Some(CounterValue { status, value })
}

#[test]
fn success_is_status_zero() {
    assert_eq!(STATUS_SUCCESS, 0);
    assert!(succeeded(0));
    assert!(!succeeded(1));
    assert!(!succeeded(PDH_NO_DATA));
    assert!(!succeeded(u32::MAX));
}

#[test]
fn counter_paths_name_the_total_of_all_physical_disks() {
    assert_eq!(READ_COUNTER_PATH, r"\PhysicalDisk(_Total)\Disk Read Bytes/sec");
    assert_eq!(WRITE_COUNTER_PATH, r"\PhysicalDisk(_Total)\Disk Write Bytes/sec");
}

#[test]
fn query_is_open_only_with_success_and_a_handle() {
    assert!(query_was_opened(0, 1));
    assert!(query_was_opened(0, -1));
    assert!(!query_was_opened(0, 0));
    assert!(!query_was_opened(5, 1));
    assert!(!query_was_opened(5, 0));
}

#[test]
fn adapter_is_active_when_everything_was_set_up() {
    let adapter = DiskAdapter::from_open(opened());
    assert_eq!(
        adapter,
        DiskAdapter::Active(DiskCounters { query: 100, read_counter: 101, write_counter: 102 })
    );
    assert_eq!(
        adapter.counters(),
        Some(DiskCounters { query: 100, read_counter: 101, write_counter: 102 })
    );
}

#[test]
fn adapter_is_inert_when_the_query_did_not_open() {
    let failed = DiskOpenOutcome { open_status: PDH_NO_DATA, ..opened() };
    assert_eq!(DiskAdapter::from_open(failed), DiskAdapter::Unavailable);
    let no_handle = DiskOpenOutcome { query: 0, ..opened() };
    assert_eq!(DiskAdapter::from_open(no_handle), DiskAdapter::Unavailable);
    let never_tried = DiskOpenOutcome { open_status: 1, query: 0, read: None, write: None };
    assert_eq!(DiskAdapter::from_open(never_tried), DiskAdapter::Unavailable);
    assert_eq!(DiskAdapter::Unavailable.counters(), None);
}

#[test]
fn adapter_is_inert_when_a_counter_was_not_registered() {
    let read_failed = DiskOpenOutcome {
        read: Some(CounterRegistration { status: PDH_CSTATUS_NO_OBJECT, counter: 101 }),
        ..opened()
    };
    assert_eq!(DiskAdapter::from_open(read_failed), DiskAdapter::Unavailable);
    let write_failed = DiskOpenOutcome {
        write: Some(CounterRegistration { status: PDH_CSTATUS_NO_OBJECT, counter: 102 }),
        ..opened()
    };
    assert_eq!(DiskAdapter::from_open(write_failed), DiskAdapter::Unavailable);
    let read_missing = DiskOpenOutcome { read: None, ..opened() };
    assert_eq!(DiskAdapter::from_open(read_missing), DiskAdapter::Unavailable);
    let write_missing = DiskOpenOutcome { write: None, ..opened() };
    assert_eq!(DiskAdapter::from_open(write_missing), DiskAdapter::Unavailable);
}

#[test]
fn good_poll_gives_both_values() {
    let poll = DiskPoll { collect_status: 0, read: value(0, 10_485_760), write: value(0, 2_097_152) };
    assert_eq!(
        DiskReading::from_poll(poll),
        DiskReading { read_bps: Some(10_485_760), write_bps: Some(2_097_152) }
    );
}

#[test]
fn failed_collection_gives_nothing() {
    let poll = DiskPoll { collect_status: PDH_NO_DATA, read: value(0, 1), write: value(0, 2) };
    assert_eq!(DiskReading::from_poll(poll), DiskReading::skipped());
    assert_eq!(DiskReading::skipped(), DiskReading { read_bps: None, write_bps: None });
}

#[test]
fn counters_fail_independently() {
    let read_failed = DiskPoll { collect_status: 0, read: value(PDH_NO_DATA, 1), write: value(0, 2) };
    assert_eq!(
        DiskReading::from_poll(read_failed),
        DiskReading { read_bps: None, write_bps: Some(2) }
    );
    let write_failed = DiskPoll { collect_status: 0, read: value(0, 1), write: value(7, 2) };
    assert_eq!(
        DiskReading::from_poll(write_failed),
        DiskReading { read_bps: Some(1), write_bps: None }
    );
    let not_formatted = DiskPoll { collect_status: 0, read: None, write: None };
    assert_eq!(DiskReading::from_poll(not_formatted), DiskReading::skipped());
}

#[test]
fn inert_adapter_ignores_every_poll() {
    let poll = DiskPoll { collect_status: 0, read: value(0, 1), write: value(0, 2) };
    assert_eq!(DiskAdapter::Unavailable.reading(Some(poll)), DiskReading::skipped());
    assert_eq!(DiskAdapter::Unavailable.reading(None), DiskReading::skipped());
}

#[test]
fn active_adapter_reads_the_poll() {
    let adapter = DiskAdapter::from_open(opened());
    let poll = DiskPoll { collect_status: 0, read: value(0, 1), write: value(0, 2) };
    assert_eq!(
        adapter.reading(Some(poll)),
        DiskReading { read_bps: Some(1), write_bps: Some(2) }
    );
    assert_eq!(adapter.reading(None), DiskReading::skipped());
}

#[test]
fn disk_reading_writes_what_was_obtained() {
    let mut metrics = HardwareMetrics::default();
    apply_disk_reading(
        &mut metrics,
        DiskReading { read_bps: Some(10_485_760), write_bps: Some(2_097_152) },
    );
    assert_eq!(metrics.disk_read_bps, 10_485_760);
    assert_eq!(metrics.disk_write_bps, 2_097_152);
}

#[test]
fn missing_disk_value_keeps_the_previous_one() {
    let mut metrics = HardwareMetrics::default();
    apply_disk_reading(&mut metrics, DiskReading { read_bps: Some(5), write_bps: Some(6) });
    apply_disk_reading(&mut metrics, DiskReading { read_bps: None, write_bps: Some(7) });
    assert_eq!((metrics.disk_read_bps, metrics.disk_write_bps), (5, 7));
    apply_disk_reading(&mut metrics, DiskReading { read_bps: Some(8), write_bps: None });
    assert_eq!((metrics.disk_read_bps, metrics.disk_write_bps), (8, 7));
    apply_disk_reading(&mut metrics, DiskReading::skipped());
    assert_eq!((metrics.disk_read_bps, metrics.disk_write_bps), (8, 7));
}

#[test]
fn idle_disks_read_zero() {
    let mut metrics = HardwareMetrics::default();
    apply_disk_reading(&mut metrics, DiskReading { read_bps: Some(5), write_bps: Some(6) });
    apply_disk_reading(&mut metrics, DiskReading { read_bps: Some(0), write_bps: Some(0) });
    assert_eq!((metrics.disk_read_bps, metrics.disk_write_bps), (0, 0));
}

#[test]
fn disk_reading_leaves_other_fields_alone() {
    let mut metrics = HardwareMetrics::default();
    metrics.gpu_name = "Tesla C2070".to_string();
    metrics.gpu_vram_used_mb = 9;
    let mut expected = metrics.clone();
    apply_disk_reading(&mut metrics, DiskReading { read_bps: Some(1), write_bps: Some(2) });
    expected.disk_read_bps = 1;
    expected.disk_write_bps = 2;
    assert_eq!(metrics, expected);
}
