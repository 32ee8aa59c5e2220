use threadkit::channel::{Channel, ChannelData, GetStep, ParkedStep};

#[test]
fn items_come_out_in_put_order() {
    let channel = Channel::<i32>::new();
    channel.put(1);
    channel.put(2);
    channel.put(3);
    assert_eq!(channel.get(), Some(1));
    assert_eq!(channel.get(), Some(2));
    assert_eq!(channel.get(), Some(3));
}

#[test]
fn sole_endpoint_auto_closes() {
    // with one endpoint and the buffer drained, a get reports closed
    // without any explicit end call: blocking would leave nobody to put
    let channel = Channel::<u8>::new();
    channel.put(7);
    assert_eq!(channel.get(), Some(7));
    assert_eq!(channel.get(), None);
}

#[test]
fn ended_endpoint_closes_every_getter() {
    let producer = Channel::<i32>::named("jobs");
    let consumer1 = producer.clone();
    let consumer2 = producer.clone();

    producer.put(5);
    producer.end();

    assert_eq!(consumer1.get(), Some(5));
    assert_eq!(consumer1.get(), None);
    assert_eq!(consumer2.get(), None);
    assert_eq!(producer.get(), None);
}

#[test]
fn released_endpoints_feed_the_close_rule() {
    let channel = Channel::<i32>::new();
    let extra = channel.clone();
    extra.put(11);
    extra.release();

    assert_eq!(channel.get(), Some(11));
    // back to a sole endpoint: the next get auto-closes
    assert_eq!(channel.get(), None);
}

#[test]
fn release_closes_every_parked_getter() {
    // three endpoints, two of them blocked in a get
    let mut state = ChannelData::<i32>::new("");
    state.register_endpoint();
    state.register_endpoint();
    state.register_endpoint();
    assert!(matches!(state.get_step(), GetStep::Parked));
    assert!(matches!(state.get_step(), GetStep::Parked));
    // the last unblocked endpoint leaves: nobody can produce any more,
    // so both blocked getters are told "closed", not only the first
    state.release_endpoint();
    assert!(matches!(state.parked_poll(), ParkedStep::Closed));
    assert!(matches!(state.parked_poll(), ParkedStep::Closed));
}

#[test]
fn count_based_close_reaches_parked_getters() {
    // two endpoints, one blocked; the other's get would block everyone
    let mut state = ChannelData::<i32>::new("");
    state.register_endpoint();
    state.register_endpoint();
    assert!(matches!(state.get_step(), GetStep::Parked));
    assert!(matches!(state.get_step(), GetStep::Closed));
    // the close latched: the getter blocked earlier closes as well
    assert!(matches!(state.parked_poll(), ParkedStep::Closed));
}
