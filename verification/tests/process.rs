use brainmux::process::{child_pid, teardown};

#[test]
fn teardown_targets_each_group_in_order() {
    assert_eq!(teardown(&[1234, 5678]), vec![-1234, -5678]);
}

#[test]
fn teardown_of_nothing_targets_nothing() {
    assert!(teardown(&[]).is_empty());
}

#[test]
fn child_ids_are_cast_to_pids() {
    assert_eq!(child_pid(4242), 4242);
    assert_eq!(child_pid(4_000_000_000), -294_967_296);
}
