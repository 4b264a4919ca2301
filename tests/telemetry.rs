use sysgauge::history::BoundedHistory;
use sysgauge::telemetry::{checked_total, sparkline_peak};

#[test]
fn totals_of_counters() {
    assert_eq!(checked_total(&vec![]), Some(0));
    assert_eq!(checked_total(&vec![1, 2, 3]), Some(6));
    assert_eq!(checked_total(&vec![u64::MAX, 0]), Some(u64::MAX));
    assert_eq!(checked_total(&vec![u64::MAX, 1]), None);
}

#[test]
fn sparkline_peak_is_at_least_one() {
    let mut h: BoundedHistory<u64> = BoundedHistory::new(4);
    assert_eq!(sparkline_peak(&h), 1);
    h.push(0);
    assert_eq!(sparkline_peak(&h), 1);
    h.push(40);
    h.push(7);
    assert_eq!(sparkline_peak(&h), 40);
}
