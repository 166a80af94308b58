use file_prober::stats::{is_report_point, stats_report};

#[test]
fn reports_on_every_hundredth_request_only() {
    let points: Vec<u64> = (1..=1000).filter(|n| is_report_point(*n)).collect();
    assert_eq!(points, vec![100, 200, 300, 400, 500, 600, 700, 800, 900, 1000]);
    assert!(!is_report_point(0));
    assert!(!is_report_point(99));
    assert!(!is_report_point(101));
}

#[test]
fn elapsed_time_splits_into_minutes_and_seconds() {
    let r = stats_report(100, 125);
    assert_eq!(r.requests, 100);
    assert_eq!(r.minutes, 2);
    assert_eq!(r.seconds, 5);
}

#[test]
fn rate_is_in_hundredths_rounded_to_nearest() {
    assert_eq!(stats_report(100, 3).rate_hundredths, Some(3333));
    assert_eq!(stats_report(200, 3).rate_hundredths, Some(6667));
    assert_eq!(stats_report(250, 125).rate_hundredths, Some(200));
    assert_eq!(stats_report(1, 8).rate_hundredths, Some(13));
    assert_eq!(stats_report(1, 200).rate_hundredths, Some(1));
    assert_eq!(stats_report(1, 201).rate_hundredths, Some(0));
}

#[test]
fn zero_elapsed_seconds_gives_no_rate() {
    let r = stats_report(100, 0);
    assert_eq!(r.rate_hundredths, None);
    assert_eq!(r.minutes, 0);
    assert_eq!(r.seconds, 0);
}

#[test]
fn largest_counts_do_not_overflow() {
    let r = stats_report(u64::MAX, 1);
    assert_eq!(r.rate_hundredths, Some(u64::MAX as u128 * 100));
    let r = stats_report(u64::MAX, u64::MAX);
    assert_eq!(r.minutes, u64::MAX / 60);
    assert_eq!(r.seconds, u64::MAX % 60);
    assert_eq!(r.rate_hundredths, Some(100));
}
