use dynharvest::harvester::{Harvester, TaskState};

#[test]
fn never_runs_more_than_the_cap() {
    let mut h = Harvester::new(3, 2);

    let first = h.next_to_start().unwrap();
    assert_eq!(first, 0);
    h.start(first);
    let second = h.next_to_start().unwrap();
    assert_eq!(second, 1);
    h.start(second);
    assert_eq!(h.running, 2);

    // The budget is full: nothing more may start until a task settles.
    assert_eq!(h.next_to_start(), None);

    h.settle(first, false);
    let third = h.next_to_start().unwrap();
    assert_eq!(third, 2);
    h.start(third);
    assert_eq!(h.running, 2);

    h.settle(second, true);
    h.settle(third, true);
    assert!(h.all_settled());
}

#[test]
fn one_failure_settles_only_its_own_task() {
    let mut h = Harvester::new(3, 3);
    h.start(0);
    h.start(1);
    h.start(2);
    h.settle(1, false);
    assert_eq!(h.states[0], TaskState::Running);
    assert_eq!(h.states[1], TaskState::Failed);
    assert_eq!(h.states[2], TaskState::Running);
    h.settle(0, true);
    h.settle(2, true);
    assert_eq!(h.states[0], TaskState::Completed);
    assert_eq!(h.states[1], TaskState::Failed);
    assert_eq!(h.states[2], TaskState::Completed);
    assert!(h.all_settled());
}

#[test]
fn a_run_with_no_collections_is_settled_at_once() {
    let h = Harvester::new(0, 4);
    assert!(h.all_settled());
    assert_eq!(h.next_to_start(), None);
}
