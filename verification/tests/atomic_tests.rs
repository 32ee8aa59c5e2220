use threadkit::atomic::AtomicInteger;

#[test]
fn validate_atomic_counter() {
    let counter = AtomicInteger::new(13);
    counter.increment();
    counter.increment();
    assert_eq!(counter.get(), 15);

    counter.decrement();
    assert_eq!(counter.get(), 14);

    counter.set(100);
    assert_eq!(counter.get(), 100);
    counter.decrement();
    assert_eq!(counter.get(), 99);
}

#[test]
fn counter_returns_previous_value() {
    let counter = AtomicInteger::new(7);
    assert_eq!(counter.add(5), 7);
    assert_eq!(counter.get(), 12);
    assert_eq!(counter.sub(2), 12);
    assert_eq!(counter.get(), 10);
    assert_eq!(counter.increment(), 10);
    assert_eq!(counter.decrement(), 11);
    assert_eq!(counter.get(), 10);
}

#[test]
fn counter_wraps_at_the_edges() {
    let counter = AtomicInteger::new(i32::MAX);
    counter.add(1);
    assert_eq!(counter.get(), i32::MIN);
    counter.sub(1);
    assert_eq!(counter.get(), i32::MAX);
}

#[test]
fn counter_clones_share_the_value() {
    let counter = AtomicInteger::new(0);
    let other = counter.clone();
    other.add(41);
    counter.increment();
    assert_eq!(other.get(), 42);
    assert_eq!(counter.get(), 42);
}
