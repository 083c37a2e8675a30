use timed_exec::duration::Duration;
use timed_exec::rusage::{scale_rss, Platform, ResourceUsage};

#[test]
fn timeval_conversion() {
    assert_eq!(
        Duration::from_timeval(1, 500_000),
        Duration { secs: 1, nanos: 500_000_000 }
    );
    assert_eq!(Duration::from_timeval(0, 1), Duration { secs: 0, nanos: 1_000 });
    assert_eq!(Duration::from_timeval(0, 0), Duration { secs: 0, nanos: 0 });
}

#[test]
fn duration_addition_carries() {
    let a = Duration { secs: 1, nanos: 600_000_000 };
    let b = Duration { secs: 2, nanos: 700_000_000 };
    assert_eq!(a.plus(&b), Duration { secs: 4, nanos: 300_000_000 });
}

#[test]
fn scale_kibibyte_platform() {
    assert_eq!(scale_rss(5, &Platform::RssInKibibytes), Some(5_120));
}

#[test]
fn scale_byte_platform() {
    assert_eq!(scale_rss(5, &Platform::RssInBytes), Some(5));
    assert_eq!(scale_rss(u64::MAX, &Platform::RssInBytes), Some(u64::MAX));
}

#[test]
fn scale_overflow_is_refused() {
    assert_eq!(scale_rss(u64::MAX, &Platform::RssInKibibytes), None);
    assert_eq!(
        scale_rss(u64::MAX / 1024, &Platform::RssInKibibytes),
        Some((u64::MAX / 1024) * 1024)
    );
}

#[test]
fn usage_from_raw_counters() {
    let ru = ResourceUsage::from_raw(1, 500_000, 0, 250_000, 2_048, &Platform::RssInKibibytes)
        .unwrap();
    assert_eq!(ru.user_cpu, Duration { secs: 1, nanos: 500_000_000 });
    assert_eq!(ru.sys_cpu, Duration { secs: 0, nanos: 250_000_000 });
    assert_eq!(ru.max_rss_bytes, 2_097_152);
    assert_eq!(ru.total_cpu(), Duration { secs: 1, nanos: 750_000_000 });
}

#[test]
fn usage_from_raw_byte_platform() {
    let ru = ResourceUsage::from_raw(0, 0, 0, 0, 4_096, &Platform::RssInBytes).unwrap();
    assert_eq!(ru.max_rss_bytes, 4_096);
}
