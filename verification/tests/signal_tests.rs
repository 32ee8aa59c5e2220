use threadkit::signal::{Gate, IdleTracker};
use threadkit::workgroup::WaitGroup;
use threadkit::latent::Latent;

#[test]
fn validate_gate_open() {
    let gate = Gate::new();
    gate.open();
    gate.wait(); // shouldn't wait if gate is already open
}

#[test]
fn gate_stays_open_however_often_opened() {
    let gate = Gate::new();
    gate.open();
    gate.open();
    gate.open();
    gate.wait();

    let shared = gate.clone();
    shared.close();
    shared.open();
    gate.wait();
}

#[test]
fn shared_gate_opens_for_all_handles() {
    let gate = Gate::arc();
    let other = gate.clone();
    other.open();
    gate.wait();
}

#[test]
fn wait_group_collects_in_order() {
    let a = Latent::<i32>::new();
    let b = Latent::<i32>::new();
    a.clone().set(10);
    b.clone().set(20);

    let mut group = WaitGroup::new();
    group.add(a);
    group.add(b);
    let values = group.wait();
    assert_eq!(values, vec![10, 20]);

    // the batch is empty afterwards
    assert!(group.wait().is_empty());
}

#[test]
fn idle_tracker_is_level_triggered() {
    let tracker = IdleTracker::new();
    tracker.wait(); // idle from the start: no blocking
    assert_eq!(tracker.running(), 0);

    let worker = tracker.clone();
    worker.task_started();
    worker.task_started();
    assert_eq!(tracker.running(), 2);
    assert!(!worker.task_finished());
    assert!(worker.task_finished()); // the count reached zero at this step
    assert_eq!(tracker.running(), 0);
    tracker.wait(); // already idle again: returns at once
}
