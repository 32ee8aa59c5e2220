use threadkit::event::EventListener;

#[test]
fn wait_one() {
    let mut listener = EventListener::<usize>::new();
    let mut triggered_indices = vec![false; 10];
    let mut triggered_count = 0;

    for i in 0..triggered_indices.len() {
        let event = listener.create_event(i);
        event.trigger();
    }

    loop {
        if let Some(index) = listener.wait_one() {
            triggered_indices[index] = true;
            triggered_count += 1;

            if triggered_count == 10 {
                println!("all triggers fired");
                break;
            }
        } else {
            break;
        }
    }

    assert!(triggered_count == 10);
}

#[test]
fn wait_one_no_events() {
    let listener = EventListener::<usize>::new();
    let event_value = listener.wait_one();
    assert!(event_value == None);
}

#[test]
fn wait_some_no_events() {
    let listener = EventListener::<usize>::new();
    let event_values = listener.wait_some();
    assert!(event_values.is_empty());
}

#[test]
fn wait_all_no_events() {
    let listener = EventListener::<usize>::new();
    let event_values = listener.wait_all();
    assert!(event_values.is_empty());
}

#[test]
fn values_come_out_in_firing_order() {
    let mut listener = EventListener::<u32>::new();
    let first = listener.create_event(5);
    let second = listener.create_event(9);
    let third = listener.create_event(2);
    second.trigger();
    third.trigger();
    first.trigger();
    assert_eq!(listener.wait_one(), Some(9));
    assert_eq!(listener.wait_all(), vec![2, 5]);
    assert_eq!(listener.wait_one(), None);
}

#[test]
fn dismissed_events_stop_the_wait() {
    let mut listener = EventListener::<u32>::new();
    let armed = listener.create_event(1);
    armed.dismiss();
    assert_eq!(listener.wait_one(), None);
    assert!(listener.wait_some().is_empty());
}
