use vaultfs::{disk_usage, network_totals, DeviceReadings, StatsCache, REFRESH_PERIOD_MS};

#[test]
fn first_request_reads_snapshot() {
    let mut cache = StatsCache::new();
    assert_eq!(cache.last_refresh, None);
    cache.refresh_if_needed(5, None);
    assert_eq!(cache.last_refresh, Some(5));
}

#[test]
fn requests_within_period_share_snapshot() {
    let mut cache = StatsCache::new();
    cache.refresh_if_needed(1_000, None);
    cache.refresh_if_needed(1_499, None);
    assert_eq!(cache.last_refresh, Some(1_000));
}

#[test]
fn request_after_period_rereads() {
    let mut cache = StatsCache::new();
    cache.refresh_if_needed(1_000, None);
    cache.refresh_if_needed(1_500, None);
    assert_eq!(cache.last_refresh, Some(1_500));
    cache.refresh_if_needed(1_700, None);
    assert_eq!(cache.last_refresh, Some(1_500));
    cache.refresh_if_needed(2_000, None);
    assert_eq!(cache.last_refresh, Some(2_000));
}

#[test]
fn clock_reading_earlier_keeps_snapshot() {
    let mut cache = StatsCache::new();
    cache.refresh_if_needed(10_000, None);
    cache.refresh_if_needed(3_000, None);
    assert_eq!(cache.last_refresh, Some(10_000));
}

#[test]
fn update_rate_matches_period() {
    let cache = StatsCache::new();
    assert_eq!(REFRESH_PERIOD_MS, 500);
    assert_eq!(cache.update_rate_hz(), 2);
    assert_eq!(cache.config().update_rate_hz, 2);
    let _ = cache.get_system().total_memory();
}

#[test]
fn disk_usage_sums_used_and_total() {
    assert_eq!(disk_usage(&[(100, 40), (50, 50), (10, 0)]), (70, 160));
    assert_eq!(disk_usage(&[]), (0, 0));
}

#[test]
fn disk_usage_counts_overreported_free_space_as_zero() {
    assert_eq!(disk_usage(&[(10, 20)]), (0, 10));
}

#[test]
fn disk_usage_saturates() {
    assert_eq!(disk_usage(&[(u64::MAX, 0), (5, 0)]), (u64::MAX, u64::MAX));
}

#[test]
fn network_totals_sum_each_direction() {
    assert_eq!(network_totals(&[(1, 2), (30, 40)]), (31, 42));
    assert_eq!(network_totals(&[(u64::MAX, 1), (1, 1)]), (u64::MAX, 2));
}

fn readings(used_free: u64, uptime: u64) -> Option<DeviceReadings> {
    Some(DeviceReadings {
        disks: vec![(100, used_free), (50, 0)],
        interfaces: vec![(7, 8), (1, 2)],
        uptime,
    })
}

#[test]
fn device_figures_are_part_of_snapshot() {
    let mut cache = StatsCache::new();
    assert!(cache.is_due(0));
    cache.refresh_if_needed(0, readings(40, 11));
    assert_eq!((cache.disk_used, cache.disk_total), (110, 150));
    assert_eq!((cache.network_rx, cache.network_tx), (8, 10));
    assert_eq!(cache.uptime, 11);
    assert!(!cache.is_due(499));
    cache.refresh_if_needed(499, readings(0, 99));
    assert_eq!((cache.disk_used, cache.uptime), (110, 11));
    assert!(cache.is_due(500));
    cache.refresh_if_needed(500, readings(0, 99));
    assert_eq!((cache.disk_used, cache.uptime), (150, 99));
    assert_eq!(cache.last_refresh, Some(500));
}

#[test]
fn refresh_without_readings_keeps_device_figures() {
    let mut cache = StatsCache::new();
    cache.refresh_if_needed(0, readings(40, 11));
    cache.refresh_if_needed(1_000, None);
    assert_eq!(cache.last_refresh, Some(1_000));
    assert_eq!((cache.disk_used, cache.uptime), (110, 11));
}
