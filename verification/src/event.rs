//! One-shot, multi-source, single-consumer event notification.
//!
//! A listener owns a shared notification box; each [`Event`] is a single-fire
//! capability tied to one value. Firing appends the value to the box's queue;
//! dismissing an event instead lowers the pending count, so the consumer can
//! tell "nothing left that could fire" apart from "still waiting".
//!
//! All bookkeeping is the verified state type [`SharedData`]; the handles
//! only take the shared lock and step it.

use std::sync::Arc;
use vstd::prelude::*;
use vstd::rwlock::RwLock;

verus! {

/// The notification box: the values already fired, in firing order, and the
/// count of events still able to fire.
pub struct SharedData<T> {
    pub triggered_events: Vec<T>,
    pub event_count: i32,
}

impl<T> SharedData<T> {
    /// Well-formed: the pending count never goes negative.
    pub open spec fn wf(self) -> bool {
        self.event_count >= 0
    }

    /// Nothing queued, but an event is still able to fire: a consumer would
    /// have to block here.
    pub open spec fn must_block(self) -> bool {
        self.triggered_events@.len() == 0 && self.event_count > 0
    }

    pub fn new() -> (r: Self)
        ensures
            r.wf(),
            r.triggered_events@ == Seq::<T>::empty(),
            r.event_count == 0,
    {
        SharedData { triggered_events: Vec::new(), event_count: 0 }
    }

    /// One more event that may fire later.
    pub fn arm_one(&mut self)
        requires
            old(self).wf(),
        ensures
            final(self).wf(),
            final(self).triggered_events@ == old(self).triggered_events@,
            final(self).event_count == if old(self).event_count < i32::MAX {
                old(self).event_count + 1
            } else {
                old(self).event_count as int
            },
    {
        if self.event_count < i32::MAX {
            self.event_count = self.event_count + 1;
        }
    }

    /// One event has fired or been dismissed and can never fire again.
    pub fn settle_one(&mut self)
        requires
            old(self).wf(),
        ensures
            final(self).wf(),
            final(self).triggered_events@ == old(self).triggered_events@,
            final(self).event_count == if old(self).event_count > 0 {
                old(self).event_count - 1
            } else {
                0
            },
    {
        if self.event_count > 0 {
            self.event_count = self.event_count - 1;
        }
    }

    /// A fired value joins the queue, behind everything fired before it.
    pub fn trigger(&mut self, value: T)
        requires
            old(self).wf(),
        ensures
            final(self).wf(),
            final(self).triggered_events@ == old(self).triggered_events@.push(value),
            final(self).event_count == old(self).event_count,
    {
        self.triggered_events.push(value);
    }

    /// Takes one value in firing order, or reports that none can come: the
    /// front of the queue if one is queued, and `None` if no event is armed
    /// any more. When the queue is empty but an event is still armed, the
    /// consumer must block instead, which is excluded here.
    pub fn wait_one(&mut self) -> (r: Option<T>)
        requires
            old(self).wf(),
            !old(self).must_block(),
        ensures
            final(self).wf(),
            final(self).event_count == old(self).event_count,
            old(self).triggered_events@.len() > 0 ==> r == Some(old(self).triggered_events@[0])
                && final(self).triggered_events@ == old(self).triggered_events@.skip(1),
            old(self).triggered_events@.len() == 0 ==> r is None && final(self).triggered_events@
                == old(self).triggered_events@,
    {
        if self.triggered_events.len() > 0 {
            Some(self.triggered_events.remove(0))
        } else {
            None
        }
    }

    /// Takes everything already queued, in firing order; empty exactly when
    /// nothing is queued and nothing armed remains.
    pub fn wait_some(&mut self) -> (r: Vec<T>)
        requires
            old(self).wf(),
            !old(self).must_block(),
        ensures
            final(self).wf(),
            final(self).event_count == old(self).event_count,
            r@ == old(self).triggered_events@,
            final(self).triggered_events@.len() == 0,
    {
        self.triggered_events.split_off(0)
    }

    /// Takes every value this box can ever deliver, once nothing armed
    /// remains: exactly the queue as it stands. This is the terminal round of
    /// a wait for everything; while events are still armed, the consumer
    /// gathers round after round instead, joining them with [`gather_step`]
    /// until one comes back empty.
    pub fn wait_all(&mut self) -> (r: Vec<T>)
        requires
            old(self).wf(),
            old(self).event_count == 0,
        ensures
            final(self).wf(),
            final(self).event_count == old(self).event_count,
            r@ == old(self).triggered_events@,
            final(self).triggered_events@.len() == 0,
    {
        self.wait_some()
    }
}

pub open spec fn notifier_inv<T>() -> spec_fn(SharedData<T>) -> bool {
    |s: SharedData<T>| s.wf()
}

/// What one poll of the shared box found.
enum OnePoll<T> {
    Ready(Option<T>),
    Blocked,
}

/// One verified poll: takes the lock, applies [`SharedData::wait_one`] when
/// that cannot block, and otherwise reports that the consumer must wait.
fn poll_one<T: Copy>(shared: &Arc<RwLock<SharedData<T>, spec_fn(SharedData<T>) -> bool>>) -> (r:
    OnePoll<T>)
    requires
        shared.pred() == notifier_inv::<T>(),
{
    let (mut s, handle) = shared.acquire_write();
    let r = if s.triggered_events.len() > 0 || s.event_count <= 0 {
        OnePoll::Ready(s.wait_one())
    } else {
        OnePoll::Blocked
    };
    handle.release_write(s);
    r
}

/// What one draining poll of the shared box found.
enum SomePoll<T> {
    Ready(Vec<T>),
    Blocked,
}

/// One verified draining poll: takes the lock, applies
/// [`SharedData::wait_some`] when that cannot block, and otherwise reports
/// that the consumer must wait.
fn poll_some<T: Copy>(shared: &Arc<RwLock<SharedData<T>, spec_fn(SharedData<T>) -> bool>>) -> (r:
    SomePoll<T>)
    requires
        shared.pred() == notifier_inv::<T>(),
{
    let (mut s, handle) = shared.acquire_write();
    let r = if s.triggered_events.len() > 0 || s.event_count <= 0 {
        SomePoll::Ready(s.wait_some())
    } else {
        SomePoll::Blocked
    };
    handle.release_write(s);
    r
}

/// Relies on std::hint::spin_loop to stall between polls. Blocks until
/// [`poll_one`] finds a value or finds nothing armed; the wait is unbounded
/// (an event must fire from another handle), which is why this one retry
/// loop is not verified.
#[verifier::external_body]
fn spin_one<T: Copy>(shared: &Arc<RwLock<SharedData<T>, spec_fn(SharedData<T>) -> bool>>) -> Option<
    T,
> {
    loop {
        if let OnePoll::Ready(r) = poll_one(shared) {
            return r;
        }
        std::hint::spin_loop();
    }
}

/// One gather step of a wait for everything: the round's values join what
/// was gathered before, in order, and an empty round means the wait is done —
/// nothing was queued and nothing armed remained when the round was taken.
pub fn gather_step<T>(values: &mut Vec<T>, round: Vec<T>) -> (done: bool)
    ensures
        done <==> round@.len() == 0,
        final(values)@ == old(values)@ + round@,
{
    let mut arrived = round;
    let done = arrived.len() == 0;
    values.append(&mut arrived);
    done
}

/// Relies on std::hint::spin_loop to stall between polls. Repeats: one
/// verified [`poll_some`], one verified [`gather_step`], until a round comes
/// back empty; unbounded for the same reason as [`spin_one`].
#[verifier::external_body]
fn spin_all<T: Copy>(shared: &Arc<RwLock<SharedData<T>, spec_fn(SharedData<T>) -> bool>>) -> Vec<
    T,
> {
    let mut values = Vec::new();
    loop {
        match poll_some(shared) {
            SomePoll::Ready(round) => {
                if gather_step(&mut values, round) {
                    return values;
                }
            },
            SomePoll::Blocked => std::hint::spin_loop(),
        }
    }
}

/// A single-fire notification capability: fires its value into the listener's
/// box exactly once, or is dismissed without firing.
#[verifier::reject_recursive_types(T)]
pub struct Event<T: Copy> {
    shared: Arc<RwLock<SharedData<T>, spec_fn(SharedData<T>) -> bool>>,
    value: T,
}

impl<T: Copy> Event<T> {
    #[verifier::type_invariant]
    spec fn wf_handle(self) -> bool {
        self.shared.pred() == notifier_inv::<T>()
    }

    /// The value this event delivers when it fires.
    pub closed spec fn spec_value(self) -> T {
        self.value
    }

    /// Arms a new event against the given box.
    pub(crate) fn new(
        shared: Arc<RwLock<SharedData<T>, spec_fn(SharedData<T>) -> bool>>,
        value: T,
    ) -> (r: Self)
        requires
            shared.pred() == notifier_inv::<T>(),
        ensures
            r.spec_value() == value,
    {
        let (mut s, handle) = shared.acquire_write();
        s.arm_one();
        handle.release_write(s);
        Event { shared, value }
    }

    /// Fires: the value joins the listener's queue and the event is settled.
    pub fn trigger(self) {
        proof {
            use_type_invariant(&self);
        }
        let (mut s, handle) = self.shared.acquire_write();
        s.trigger(self.value);
        s.settle_one();
        handle.release_write(s);
    }

    /// Dismisses the event without firing: the pending count drops, so a
    /// consumer no longer waits for this one.
    pub fn dismiss(self) {
        proof {
            use_type_invariant(&self);
        }
        let (mut s, handle) = self.shared.acquire_write();
        s.settle_one();
        handle.release_write(s);
    }
}

/// The consuming side: creates events and waits for their values.
#[verifier::reject_recursive_types(T)]
pub struct EventListener<T: Copy> {
    shared: Arc<RwLock<SharedData<T>, spec_fn(SharedData<T>) -> bool>>,
}

impl<T: Copy> EventListener<T> {
    #[verifier::type_invariant]
    spec fn wf_handle(self) -> bool {
        self.shared.pred() == notifier_inv::<T>()
    }

    pub fn new() -> Self {
        EventListener {
            shared: Arc::new(RwLock::new(SharedData::new(), Ghost(notifier_inv::<T>()))),
        }
    }

    /// A fresh single-fire event that will deliver `value` to this listener.
    pub fn create_event(&mut self, value: T) -> (r: Event<T>)
        ensures
            r.spec_value() == value,
    {
        proof {
            use_type_invariant(&*self);
        }
        Event::new(self.shared.clone(), value)
    }

    /// One value in firing order. Returns at once with a queued value, or
    /// with `None` when no event is armed any more; otherwise blocks until
    /// an event fires.
    pub fn wait_one(&self) -> Option<T> {
        proof {
            use_type_invariant(self);
        }
        match poll_one(&self.shared) {
            OnePoll::Ready(r) => r,
            OnePoll::Blocked => spin_one(&self.shared),
        }
    }

    /// Everything already queued, in firing order. With nothing queued it
    /// falls back to one blocking [`EventListener::wait_one`], so the caller
    /// still gets a value whenever one can ever come.
    pub fn wait_some(&self) -> Vec<T> {
        proof {
            use_type_invariant(self);
        }
        match poll_some(&self.shared) {
            SomePoll::Ready(v) => v,
            SomePoll::Blocked => {
                let mut values = Vec::new();
                if let Some(value) = spin_one(&self.shared) {
                    values.push(value);
                }
                values
            },
        }
    }

    /// Every value this listener can ever deliver: drains rounds until one
    /// comes back empty, which means nothing is armed any more.
    pub fn wait_all(&self) -> Vec<T> {
        proof {
            use_type_invariant(self);
        }
        spin_all(&self.shared)
    }

}

/// The values that `n` take-one steps deliver from a box whose queue holds
/// `q`: each step takes the front, as [`SharedData::wait_one`] does.
pub open spec fn drained_values<T>(q: Seq<T>, n: nat) -> Seq<T>
    decreases n,
{
    if n == 0 || q.len() == 0 {
        Seq::empty()
    } else {
        seq![q[0]] + drained_values(q.skip(1), (n - 1) as nat)
    }
}

/// Values come out in exactly the order the firings put them in: taking
/// values one at a time from a box whose queue holds the fired values yields
/// a prefix of them, in firing order — all of them once `n` covers the queue.
pub proof fn lemma_firing_order<T>(fired: Seq<T>, n: nat)
    ensures
        drained_values(fired, n) == fired.take(if n <= fired.len() {
            n as int
        } else {
            fired.len() as int
        }),
    decreases n,
{
    if n == 0 || fired.len() == 0 {
        assert(drained_values(fired, n) =~= fired.take(0));
    } else {
        lemma_firing_order(fired.skip(1), (n - 1) as nat);
        let k = if n <= fired.len() { n as int } else { fired.len() as int };
        assert(drained_values(fired, n) =~= fired.take(k));
    }
}

/// Select order: values fired while interest was being registered — those of
/// futures already resolved, which fire at registration, in registration
/// order — are all delivered before any value fired after registration, and
/// each side keeps its own firing order.
pub proof fn lemma_ready_fires_first<T>(at_registration: Seq<T>, after: Seq<T>)
    ensures
        drained_values(at_registration + after, (at_registration.len() + after.len()) as nat)
            == at_registration + after,
{
    let fired = at_registration + after;
    lemma_firing_order(fired, fired.len());
    assert(fired.take(fired.len() as int) =~= fired);
}

} // verus!
