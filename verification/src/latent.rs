//! Single-assignment futures and select-style waiting.
//!
//! A [`Latent`] is a value set exactly once and read any number of times.
//! All clones of a handle address one shared cell. Beside the value, the cell
//! keeps select registrations: single-fire events that a resolution fires, so
//! that a selector or a group can wait for the first of several futures.
//!
//! The bookkeeping is the verified state type [`LatentData`]; the handles
//! only take the shared lock and step it.

use crate::event::{Event, EventListener};
use std::sync::Arc;
use vstd::prelude::*;
use vstd::rwlock::RwLock;

verus! {

/// The select capability a future offers: registering interest, withdrawing
/// it, and asking whether the future is resolved. A selector works purely
/// through these three operations.
pub trait LatentWait {
    /// Registers `event` under the caller's `listener_id`; a future that is
    /// already resolved fires the event at once instead.
    fn add_event(&self, event: Event<usize>, listener_id: usize);

    /// Withdraws the registration made under `listener_id`, if it is still
    /// pending, and dismisses its event.
    fn remove_event(&self, listener_id: usize);

    /// Whether the value has been set.
    fn is_ready(&self) -> bool;
}

/// One set attempt as it acts on the stored value: it fills an empty cell
/// and leaves a full one untouched.
pub open spec fn set_step<T>(cur: Option<T>, value: T) -> Option<T> {
    if cur is None {
        Some(value)
    } else {
        cur
    }
}

/// There is an entry registered under `id`.
pub open spec fn has_key(s: Seq<(usize, Event<usize>)>, id: usize) -> bool {
    exists|i: int| 0 <= i < s.len() && s[i].0 == id
}

/// The shared cell of one future: the value, absent until set, and the
/// select registrations still waiting to be fired, keyed by listener id.
pub struct LatentData<T> {
    pub value: Option<T>,
    pub events: Vec<(usize, Event<usize>)>,
}

impl<T> LatentData<T> {
    /// Well-formed: no two registrations share a listener id.
    pub open spec fn wf(self) -> bool {
        forall|i: int, j: int|
            0 <= i < j < self.events@.len() ==> (#[trigger] self.events@[i]).0 != (
            #[trigger] self.events@[j]).0
    }

    pub fn new() -> (r: Self)
        ensures
            r.wf(),
            r.value is None,
            r.events@.len() == 0,
    {
        LatentData { value: None, events: Vec::new() }
    }

    /// The one assignment: stores the value if none is present and says so;
    /// a cell already holding a value rejects the call and stays as it is.
    pub fn set_value(&mut self, value: T) -> (stored: bool)
        requires
            old(self).wf(),
        ensures
            final(self).wf(),
            stored == (old(self).value is None),
            final(self).value == set_step(old(self).value, value),
            final(self).events@ == old(self).events@,
    {
        if self.value.is_none() {
            self.value = Some(value);
            true
        } else {
            false
        }
    }

    /// Takes every pending registration out, to be fired by the setter.
    pub fn drain_events(&mut self) -> (r: Vec<(usize, Event<usize>)>)
        requires
            old(self).wf(),
        ensures
            final(self).wf(),
            r@ == old(self).events@,
            final(self).events@.len() == 0,
            final(self).value == old(self).value,
    {
        self.events.split_off(0)
    }

    /// Takes the registration under `id` out, if there is one: afterwards no
    /// entry carries that id, and every other entry stays.
    pub fn take_event(&mut self, id: usize) -> (r: Option<Event<usize>>)
        requires
            old(self).wf(),
        ensures
            final(self).wf(),
            final(self).value == old(self).value,
            !has_key(old(self).events@, id) ==> r is None && final(self).events@ == old(
                self,
            ).events@,
            has_key(old(self).events@, id) ==> r is Some && exists|i: int|
                0 <= i < old(self).events@.len() && old(self).events@[i].0 == id && r == Some(
                    old(self).events@[i].1,
                ) && final(self).events@ == old(self).events@.remove(i),
            !has_key(final(self).events@, id),
    {
        let ghost orig = self.events@;
        let mut i: usize = 0;
        while i < self.events.len()
            invariant
                self.events@ == orig,
                self.value == old(self).value,
                orig == old(self).events@,
                old(self).wf(),
                0 <= i <= orig.len(),
                forall|j: int| 0 <= j < i ==> (#[trigger] orig[j]).0 != id,
            decreases orig.len() - i,
        {
            if self.events[i].0 == id {
                let entry = self.events.remove(i);
                proof {
                    orig.remove_ensures(i as int);
                    assert forall|a: int, b: int|
                        0 <= a < b < self.events@.len() implies (#[trigger] self.events@[a]).0 != (
                    #[trigger] self.events@[b]).0 by {
                        if b < i {
                        } else if a < i {
                            assert(self.events@[b] == orig[b + 1]);
                        } else {
                            assert(self.events@[a] == orig[a + 1]);
                            assert(self.events@[b] == orig[b + 1]);
                        }
                    }
                    assert forall|a: int| 0 <= a < self.events@.len() implies (
                    #[trigger] self.events@[a]).0 != id by {
                        if a < i {
                            assert(self.events@[a] == orig[a]);
                        } else {
                            assert(self.events@[a] == orig[a + 1]);
                            assert(orig[a + 1].0 != orig[i as int].0);
                        }
                    }
                }
                return Some(entry.1);
            }
            i = i + 1;
        }
        None
    }

    /// Adds a registration under `id`, which no present entry may carry.
    pub fn push_event(&mut self, id: usize, event: Event<usize>)
        requires
            old(self).wf(),
            !has_key(old(self).events@, id),
        ensures
            final(self).wf(),
            final(self).value == old(self).value,
            final(self).events@ == old(self).events@.push((id, event)),
    {
        self.events.push((id, event));
    }
}

pub open spec fn latent_inv<T>() -> spec_fn(LatentData<T>) -> bool {
    |s: LatentData<T>| s.wf()
}

/// One verified poll of the cell: a clone of the value if it is set.
fn try_value<T: Clone>(
    shared: &Arc<RwLock<LatentData<T>, spec_fn(LatentData<T>) -> bool>>,
) -> Option<T>
    requires
        shared.pred() == latent_inv::<T>(),
{
    let read = shared.acquire_read();
    let r = match read.borrow().value {
        Some(ref v) => Some(v.clone()),
        None => None,
    };
    read.release_read();
    r
}

/// Relies on std::hint::spin_loop to stall between polls. Blocks until
/// [`try_value`] finds the cell set and returns the value; the wait is
/// unbounded (another handle must set the cell), which is why this one retry
/// loop is not verified.
#[verifier::external_body]
fn spin_value<T: Clone>(
    shared: &Arc<RwLock<LatentData<T>, spec_fn(LatentData<T>) -> bool>>,
) -> T {
    loop {
        if let Some(v) = try_value(shared) {
            return v;
        }
        std::hint::spin_loop();
    }
}

/// A single-assignment future: set exactly once, read any number of times,
/// from any clone of the handle.
#[verifier::reject_recursive_types(T)]
pub struct Latent<T: Clone> {
    shared: Arc<RwLock<LatentData<T>, spec_fn(LatentData<T>) -> bool>>,
}

impl<T: Clone> Latent<T> {
    #[verifier::type_invariant]
    spec fn wf_handle(self) -> bool {
        self.shared.pred() == latent_inv::<T>()
    }

    pub fn new() -> Self {
        Latent { shared: Arc::new(RwLock::new(LatentData::new(), Ghost(latent_inv::<T>()))) }
    }

    /// Whether the value has been set, at the moment of the read.
    pub fn is_ready(&self) -> bool {
        proof {
            use_type_invariant(self);
        }
        let read = self.shared.acquire_read();
        let ready = read.borrow().value.is_some();
        read.release_read();
        ready
    }

    /// The one assignment. On the first call the value is stored, every
    /// blocked waiter proceeds, and every pending select registration fires,
    /// each exactly once; the call reports `true`. A later call changes
    /// nothing and reports `false`: a double set is a contract violation the
    /// caller must be able to see.
    pub fn set(self, value: T) -> bool {
        proof {
            use_type_invariant(&self);
        }
        let (mut s, handle) = self.shared.acquire_write();
        let stored = s.set_value(value);
        let mut events = if stored {
            s.drain_events()
        } else {
            Vec::new()
        };
        handle.release_write(s);
        while events.len() > 0
            decreases events.len(),
        {
            if let Some((_, event)) = events.pop() {
                event.trigger();
            }
        }
        stored
    }

    /// Blocks until the value is set, then returns a copy of it; callable on
    /// any clone, any number of times, each call yielding the stored value.
    pub fn wait(self) -> T {
        proof {
            use_type_invariant(&self);
        }
        match try_value(&self.shared) {
            Some(v) => v,
            None => spin_value(&self.shared),
        }
    }
}

impl<T: Clone> Clone for Latent<T> {
    /// Another handle onto the same cell.
    fn clone(&self) -> Self {
        proof {
            use_type_invariant(self);
        }
        Latent { shared: self.shared.clone() }
    }
}

impl<T: Clone> LatentWait for Latent<T> {
    fn add_event(&self, event: Event<usize>, listener_id: usize) {
        proof {
            use_type_invariant(self);
        }
        let (mut s, handle) = self.shared.acquire_write();
        if s.value.is_some() {
            handle.release_write(s);
            event.trigger();
        } else {
            let displaced = s.take_event(listener_id);
            s.push_event(listener_id, event);
            handle.release_write(s);
            if let Some(old_event) = displaced {
                old_event.dismiss();
            }
        }
    }

    fn remove_event(&self, listener_id: usize) {
        proof {
            use_type_invariant(self);
        }
        let (mut s, handle) = self.shared.acquire_write();
        let taken = s.take_event(listener_id);
        handle.release_write(s);
        if let Some(event) = taken {
            event.dismiss();
        }
    }

    fn is_ready(&self) -> bool {
        Latent::is_ready(self)
    }
}

/// Select-style waiting over several futures. Each waiter hands out its own
/// registration ids, drawn from a counter seeded at construction, so separate
/// waiters should be given separate instances.
pub struct LatentWaiter {
    counter: usize,
}

impl LatentWaiter {
    pub fn new() -> Self {
        LatentWaiter { counter: 0 }
    }

    /// Blocks until the first of the given futures resolves and returns its
    /// index, registering one event per future and withdrawing every
    /// registration — fired or not — before returning. A future that is
    /// already resolved fires during registration, so it wins the select.
    /// With no future supplied there is nothing to wait for: `None`.
    pub fn wait_one(&mut self, latents: &Vec<&dyn LatentWait>) -> (r: Option<usize>)
        ensures
            r matches Some(i) ==> i < latents@.len(),
            latents@.len() == 0 ==> r is None,
    {
        self.counter = self.counter.wrapping_add(1);
        let listener_id = self.counter;
        let mut listener = EventListener::<usize>::new();
        let mut i: usize = 0;
        while i < latents.len()
            decreases latents.len() - i,
        {
            latents[i].add_event(listener.create_event(i), listener_id);
            i = i + 1;
        }
        let index = listener.wait_one();
        let mut j: usize = 0;
        while j < latents.len()
            decreases latents.len() - j,
        {
            latents[j].remove_event(listener_id);
            j = j + 1;
        }
        // only an index this select registered can mean anything to the caller
        match index {
            Some(fired) if fired < latents.len() => Some(fired),
            _ => None,
        }
    }

    /// [`LatentWaiter::wait_one`] for futures held by value.
    pub fn wait_one_v<L: LatentWait>(&mut self, latents: &Vec<L>) -> (r: Option<usize>)
        ensures
            r matches Some(i) ==> i < latents@.len(),
            latents@.len() == 0 ==> r is None,
    {
        self.counter = self.counter.wrapping_add(1);
        let listener_id = self.counter;
        let mut listener = EventListener::<usize>::new();
        let mut i: usize = 0;
        while i < latents.len()
            decreases latents.len() - i,
        {
            latents[i].add_event(listener.create_event(i), listener_id);
            i = i + 1;
        }
        let index = listener.wait_one();
        let mut j: usize = 0;
        while j < latents.len()
            decreases latents.len() - j,
        {
            latents[j].remove_event(listener_id);
            j = j + 1;
        }
        match index {
            Some(fired) if fired < latents.len() => Some(fired),
            _ => None,
        }
    }

    /// Blocks until every given future has resolved and returns their indices
    /// in firing order: futures already resolved fire during registration, in
    /// index order, and the rest follow in the order their values are set.
    pub fn wait_all(&mut self, latents: &Vec<&dyn LatentWait>) -> (r: Vec<usize>)
        ensures
            forall|k: int| 0 <= k < r@.len() ==> r@[k] < latents@.len(),
            latents@.len() == 0 ==> r@.len() == 0,
    {
        self.counter = self.counter.wrapping_add(1);
        let listener_id = self.counter;
        let mut listener = EventListener::<usize>::new();
        let mut i: usize = 0;
        while i < latents.len()
            decreases latents.len() - i,
        {
            latents[i].add_event(listener.create_event(i), listener_id);
            i = i + 1;
        }
        let fired = listener.wait_all();
        // only indices this select registered can mean anything to the caller
        let mut indices: Vec<usize> = Vec::new();
        let mut k: usize = 0;
        while k < fired.len()
            invariant
                forall|m: int| 0 <= m < indices@.len() ==> indices@[m] < latents@.len(),
            decreases fired@.len() - k,
        {
            if fired[k] < latents.len() {
                indices.push(fired[k]);
            }
            k = k + 1;
        }
        proof {
            if latents@.len() == 0 && indices@.len() > 0 {
                assert(indices@[0] < latents@.len());
            }
        }
        indices
    }
}

/// A mutable collection of same-type futures, popped in resolution order.
/// Each member is registered with one event tagged by an id the group
/// assigns; the shared listener then yields ids in firing order.
#[verifier::reject_recursive_types(T)]
pub struct LatentGroup<T: Clone> {
    latents: Vec<(usize, Latent<T>)>,
    listener: EventListener<usize>,
    counter: usize,
}

impl<T: Clone> LatentGroup<T> {
    /// The members the group still holds, each under its assigned id, in the
    /// order they were added.
    pub closed spec fn members(self) -> Seq<(usize, Latent<T>)> {
        self.latents@
    }

    /// How many futures the group still holds.
    pub open spec fn member_count(self) -> nat {
        self.members().len()
    }

    pub fn new() -> (r: Self)
        ensures
            r.member_count() == 0,
    {
        LatentGroup { latents: Vec::new(), listener: EventListener::new(), counter: 0 }
    }

    /// Takes the member tagged `id` out of the collection, if it is there:
    /// what comes back was a member, and only that entry leaves.
    fn take_latent(&mut self, id: usize) -> (r: Option<Latent<T>>)
        ensures
            r matches Some(taken) ==> exists|i: int|
                0 <= i < old(self).members().len() && (#[trigger] old(self).members()[i]).0 == id
                    && old(self).members()[i].1 == taken && final(self).members() == old(
                    self,
                ).members().remove(i),
            r is Some ==> final(self).member_count() == old(self).member_count() - 1,
            r is None ==> *final(self) == *old(self),
    {
        let mut i: usize = 0;
        while i < self.latents.len()
            invariant
                *self == *old(self),
                0 <= i <= self.latents@.len(),
            decreases self.latents@.len() - i,
        {
            if self.latents[i].0 == id {
                let entry = self.latents.remove(i);
                proof {
                    let w = i as int;
                    assert(0 <= w < old(self).members().len() && (#[trigger] old(
                        self,
                    ).members()[w]).0 == id && old(self).members()[w].1 == entry.1 && self.members()
                        == old(self).members().remove(w));
                }
                return Some(entry.1);
            }
            i = i + 1;
        }
        None
    }

    /// Adds a future to the group, registering its select event under a
    /// fresh group-assigned id. The group is the sole consumer of its
    /// listener, so the registration id on the future side is fixed at zero.
    pub fn add(&mut self, latent: Latent<T>)
        ensures
            final(self).member_count() == old(self).member_count() + 1,
    {
        self.counter = self.counter.wrapping_add(1);
        let latent_id = self.counter;
        let latent_event = self.listener.create_event(latent_id);
        latent.add_event(latent_event, 0);
        self.latents.push((latent_id, latent));
    }

    /// Blocks until some member resolves, removes it from the group and
    /// returns it; members resolve-ordered, earliest first. `None` once no
    /// member with pending interest remains. What comes back was a member,
    /// and a popped member is out: it can be handed back only once.
    pub fn wait_one(&mut self) -> (r: Option<Latent<T>>)
        ensures
            r matches Some(taken) ==> exists|i: int|
                0 <= i < old(self).members().len() && (#[trigger] old(self).members()[i]).1
                    == taken && final(self).members() == old(self).members().remove(i),
            r is Some ==> final(self).member_count() == old(self).member_count() - 1,
            r is None ==> final(self).member_count() == old(self).member_count(),
    {
        let latent_id_opt = self.listener.wait_one();
        if let Some(latent_id) = latent_id_opt {
            return self.take_latent(latent_id);
        }
        None
    }

    /// Removes and returns every member already resolved, in resolution
    /// order; blocks for one resolution if none is ready yet and some member
    /// still could resolve. Each returned member is out of the group.
    pub fn wait_some(&mut self) -> (r: Vec<Latent<T>>)
        ensures
            final(self).member_count() + r@.len() == old(self).member_count(),
    {
        let latent_ids = self.listener.wait_some();
        let mut latents = Vec::<Latent<T>>::new();
        let mut i: usize = 0;
        while i < latent_ids.len()
            invariant
                self.member_count() + latents@.len() == old(self).member_count(),
            decreases latent_ids@.len() - i,
        {
            let latent_opt = self.take_latent(latent_ids[i]);
            if let Some(latent) = latent_opt {
                latents.push(latent);
            }
            i = i + 1;
        }
        latents
    }
}

/// The value of a cell after a series of set attempts, each applied as
/// [`LatentData::set_value`] applies one.
pub open spec fn apply_sets<T>(start: Option<T>, attempts: Seq<T>) -> Option<T>
    decreases attempts.len(),
{
    if attempts.len() == 0 {
        start
    } else {
        apply_sets(set_step(start, attempts[0]), attempts.skip(1))
    }
}

/// Single assignment: a cell that holds a value keeps it through any further
/// set attempts, and a fresh cell ends up holding exactly the first value
/// ever offered — so every read after that, from any handle, sees that value.
pub proof fn lemma_single_assignment<T>(v: T, attempts: Seq<T>)
    ensures
        apply_sets(Some(v), attempts) == Some(v),
        attempts.len() > 0 ==> apply_sets(None, attempts) == Some(attempts[0]),
    decreases attempts.len(),
{
    if attempts.len() > 0 {
        lemma_single_assignment(v, attempts.skip(1));
        lemma_single_assignment(attempts[0], attempts.skip(1));
    }
}

} // verus!
