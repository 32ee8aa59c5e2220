use threadkit::latent::{Latent, LatentGroup, LatentWait, LatentWaiter};

#[test]
fn latent_group_wait_one() {
    let latent1 = Latent::<i32>::new();
    let latent2 = Latent::<i32>::new();
    let latent3 = Latent::<i32>::new();

    let l1 = latent1.clone();
    let l2 = latent2.clone();
    let l3 = latent3.clone();

    // set 'l1' before being added to the wait group

    l1.set(42);

    let mut latent_group = LatentGroup::<i32>::new();
    assert!(latent_group.wait_one().is_none()); // nothing to wait on should return 'None'

    latent_group.add(latent1);
    latent_group.add(latent2);
    latent_group.add(latent3);

    // wait for 'l1'

    let opt1 = latent_group.wait_one();
    assert!(opt1.is_some());

    let lat1 = opt1.unwrap();
    assert!(lat1.is_ready());

    let val1 = lat1.wait();
    assert!(val1 == 42);

    // set 'l2' and wait

    l2.set(39);
    let opt2 = latent_group.wait_one();
    assert!(opt2.is_some());

    let lat2 = opt2.unwrap();
    assert!(lat2.is_ready());

    let val2 = lat2.wait();
    assert!(val2 == 39);

    // set 'l3' and wait

    l3.set(27);
    let opt3 = latent_group.wait_one();
    assert!(opt3.is_some());

    let lat3 = opt3.unwrap();
    assert!(lat3.is_ready());

    let val3 = lat3.wait();
    assert!(val3 == 27);

    assert!(latent_group.wait_one().is_none()); // nothing to wait on should return 'None'
}

#[test]
fn latent_group_wait_some() {
    let latent1 = Latent::<i32>::new();
    let latent2 = Latent::<i32>::new();
    let latent3 = Latent::<i32>::new();

    let l1 = latent1.clone();
    let l2 = latent2.clone();
    let l3 = latent3.clone();

    // set 'l1' & 'l2' before being added to the wait group

    l1.set(42);
    l2.set(39);

    let mut latent_group = LatentGroup::<i32>::new();
    assert!(latent_group.wait_one().is_none()); // nothing to wait on should return 'None'

    latent_group.add(latent1);
    latent_group.add(latent2);
    latent_group.add(latent3);

    // wait for 'l1' & 'l2'

    let mut latents = latent_group.wait_some();
    assert!(latents.len() == 2);

    let ll1 = latents.pop().unwrap();
    assert!(ll1.is_ready());

    let ll1_value = ll1.wait();
    assert!(ll1_value == 42 || ll1_value == 39);

    let ll2 = latents.pop().unwrap();
    assert!(ll2.is_ready());

    let ll2_value = ll2.wait();
    assert!(ll2_value == 42 || ll2_value == 39);

    // set 'l3' and wait

    l3.set(27);
    let mut latents = latent_group.wait_some();
    assert!(latents.len() == 1);

    let ll3 = latents.pop().unwrap();
    assert!(ll3.is_ready());
    assert!(ll3.wait() == 27);

    let latents = latent_group.wait_some();
    assert!(latents.len() == 0); // nothing to wait on
}

#[test]
fn latent_single_assignment() {
    let latent = Latent::<i32>::new();
    let setter = latent.clone();
    let reader = latent.clone();

    assert!(!latent.is_ready());
    assert!(setter.set(42));

    assert!(latent.is_ready());
    assert!(reader.is_ready());
    assert_eq!(latent.clone().wait(), 42);
    assert_eq!(reader.clone().wait(), 42);

    // a second assignment is rejected and changes nothing
    let again = latent.clone();
    assert!(!again.set(7));
    assert_eq!(reader.wait(), 42);
}

#[test]
fn group_pops_in_resolution_order() {
    let a = Latent::<char>::new();
    let b = Latent::<char>::new();
    let c = Latent::<char>::new();

    let mut group = LatentGroup::<char>::new();
    group.add(a.clone());
    group.add(b.clone());
    group.add(c.clone());

    c.set('c');
    a.set('a');
    b.set('b');

    assert_eq!(group.wait_one().unwrap().wait(), 'c');
    assert_eq!(group.wait_one().unwrap().wait(), 'a');
    assert_eq!(group.wait_one().unwrap().wait(), 'b');
    assert!(group.wait_one().is_none());
}

#[test]
fn waiter_picks_the_resolved_future() {
    let first = Latent::<i32>::new();
    let second = Latent::<i32>::new();
    let third = Latent::<i32>::new();

    second.clone().set(27);

    let mut waiter = LatentWaiter::new();
    let latents: Vec<&dyn LatentWait> = vec![&first, &second, &third];
    assert_eq!(waiter.wait_one(&latents), Some(1));

    // interest was withdrawn from every future, fired or not, so a fresh
    // select sees only what is resolved now
    first.clone().set(42);
    assert_eq!(waiter.wait_one(&latents), Some(0));
}

#[test]
fn waiter_with_nothing_to_wait_on() {
    let mut waiter = LatentWaiter::new();
    let latents: Vec<&dyn LatentWait> = vec![];
    assert_eq!(waiter.wait_one(&latents), None);
    assert_eq!(waiter.wait_all(&latents), Vec::<usize>::new());
}

#[test]
fn waiter_wait_all_orders_ready_first() {
    let first = Latent::<i32>::new();
    let second = Latent::<i32>::new();
    let third = Latent::<i32>::new();

    second.clone().set(27);
    first.clone().set(42);
    third.clone().set(39);

    let mut waiter = LatentWaiter::new();
    let latents: Vec<&dyn LatentWait> = vec![&first, &second, &third];
    // every future is already resolved, so each fires while it is being
    // registered: the indices come back in registration order
    assert_eq!(waiter.wait_all(&latents), vec![0, 1, 2]);
}

#[test]
fn waiter_wait_one_v_takes_futures_by_value() {
    let first = Latent::<i32>::new();
    let second = Latent::<i32>::new();

    second.clone().set(5);

    let mut waiter = LatentWaiter::new();
    let latents = vec![first, second];
    assert_eq!(waiter.wait_one_v(&latents), Some(1));
}

#[test]
fn add_event_fires_at_once_on_a_resolved_future() {
    let latent = Latent::<i32>::new();
    latent.clone().set(8);

    let mut listener = threadkit::event::EventListener::<usize>::new();
    let event = listener.create_event(3);
    latent.add_event(event, 77);
    assert_eq!(listener.wait_one(), Some(3));

    // nothing stayed registered: removing is harmless
    latent.remove_event(77);
}
