use pv_hub::model::{Health, Metric};

#[test]
fn all_has_expected_len() {
    assert_eq!(Metric::ALL.len(), 32);
}

#[test]
fn health_starts_down_without_errors() {
    let h = Health::new();
    assert!(!h.provider_ok);
    assert_eq!(h.poll_errors_total, 0);
}

#[test]
fn health_poll_error_increments_and_clears_ok() {
    let mut h = Health::new();
    h.apply(Some(true));
    assert!(h.provider_ok);
    h.record_poll_error();
    assert_eq!(h.poll_errors_total, 1);
    assert!(!h.provider_ok);
    h.apply(Some(true));
    assert!(h.provider_ok);
    assert_eq!(h.poll_errors_total, 1);
    h.record_poll_error();
    h.record_poll_error();
    assert_eq!(h.poll_errors_total, 3);
}

#[test]
fn health_apply_nothing_keeps_state() {
    let mut h = Health::new();
    h.record_poll_error();
    let before = h;
    h.apply(None);
    assert_eq!(h, before);
}
