use meshops::metrics::Metrics;

#[test]
fn counters_start_at_zero_and_render() {
    let m = Metrics::new();
    assert_eq!(
        m.render(),
        "meshops_sync_total 0\nmeshops_sync_changed_records_total 0\nmeshops_sync_failed_total 0\nmeshops_auth_login_total 0\n"
    );
}

#[test]
fn each_event_moves_its_counter() {
    let mut m = Metrics::new();
    m.record_sync(3);
    m.record_sync(0);
    m.record_sync_failure();
    m.record_login();
    m.record_login();
    assert_eq!((m.sync_total, m.sync_changed_records, m.sync_failed_total, m.auth_login_total), (2, 3, 1, 2));
    assert_eq!(
        m.render(),
        "meshops_sync_total 2\nmeshops_sync_changed_records_total 3\nmeshops_sync_failed_total 1\nmeshops_auth_login_total 2\n"
    );
}

#[test]
fn counters_wrap_like_atomics() {
    let mut m = Metrics::new();
    m.sync_total = u64::MAX;
    m.sync_changed_records = u64::MAX - 1;
    m.record_sync(3);
    assert_eq!(m.sync_total, 0);
    assert_eq!(m.sync_changed_records, 1);
}
