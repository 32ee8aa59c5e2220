//! A multi-endpoint blocking queue that closes itself.
//!
//! Endpoints are cloneable handles onto one shared state. A getter is told
//! "closed" once no endpoint can possibly produce any more — some endpoint
//! said so with [`Channel::end`], or every live endpoint is blocked in a get,
//! so none is left to put. Releasing an endpoint feeds the same reasoning.
//! The count-based conditions hold only for a moment — the counts move again
//! as getters leave — so the steps latch them into a sticky flag, and every
//! blocked getter, however many, is told "closed" exactly once.
//!
//! The bookkeeping is the verified state type [`ChannelData`]; the handles
//! only take the shared lock and step it.

use std::sync::Arc;
use vstd::prelude::*;
use vstd::rwlock::RwLock;

verus! {

/// The shared state of one queue: the buffered items in arrival order, and
/// the endpoint accounting that drives the closing rules.
pub struct ChannelData<T> {
    /// Items put and not yet taken; index 0 leaves first.
    pub buffer: Vec<T>,
    /// Endpoints that declared they will produce no more.
    pub end_count: i32,
    /// Live endpoints.
    pub open_count: i32,
    /// Endpoints currently blocked in a get.
    pub wait_count: i32,
    /// A count-based close has fired: at some step every live endpoint was
    /// blocked or leaving, so no endpoint could produce any more. The counts
    /// move on as blocked getters are turned away; this flag keeps the close
    /// in force for all of them.
    pub shut: bool,
    /// Source of diagnostic instance ids, one per endpoint ever made.
    pub instance_counter: i32,
    /// Diagnostic label.
    pub name: String,
}

impl<T> ChannelData<T> {
    /// Well-formed: counts never go negative, and there are never more
    /// blocked endpoints than live ones.
    pub open spec fn wf(self) -> bool {
        0 <= self.wait_count && self.wait_count <= self.open_count && 0 <= self.end_count && 0
            <= self.instance_counter
    }

    /// A getter finds an item waiting.
    pub open spec fn get_ready(self) -> bool {
        self.buffer@.len() > 0
    }

    /// A getter is told "closed": nothing buffered, and either some endpoint
    /// has ended, a count-based close has already fired, or this getter would
    /// be the last live endpoint not yet blocked — then nobody could ever put
    /// again.
    pub open spec fn get_closes(self) -> bool {
        self.buffer@.len() == 0 && (self.end_count > 0 || self.shut || self.wait_count + 1
            >= self.open_count)
    }

    /// A blocked getter is told "closed": nothing buffered, and either some
    /// endpoint has ended or a count-based close has fired. Both conditions
    /// are sticky, so every blocked getter sees the close, not only the
    /// first to poll.
    pub open spec fn parked_closes(self) -> bool {
        self.buffer@.len() == 0 && (self.end_count > 0 || self.shut)
    }

    /// The state after one blocked getter leaves, whether with an item or
    /// with "closed".
    pub open spec fn parked_leave(self) -> ChannelData<T> {
        ChannelData {
            wait_count: if self.wait_count > 0 {
                (self.wait_count - 1) as i32
            } else {
                0
            },
            ..self
        }
    }

    pub fn new(name: &str) -> (r: Self)
        ensures
            r.wf(),
            r.buffer@.len() == 0,
            r.end_count == 0 && r.open_count == 0 && r.wait_count == 0 && r.instance_counter == 0,
            !r.shut,
            r.name@ == name@,
    {
        ChannelData {
            buffer: Vec::new(),
            end_count: 0,
            open_count: 0,
            wait_count: 0,
            shut: false,
            instance_counter: 0,
            name: name.to_owned(),
        }
    }

    /// One more live endpoint; returns its diagnostic instance id.
    pub fn register_endpoint(&mut self) -> (id: i32)
        requires
            old(self).wf(),
        ensures
            final(self).wf(),
            final(self).buffer@ == old(self).buffer@,
            final(self).end_count == old(self).end_count,
            final(self).wait_count == old(self).wait_count,
            final(self).shut == old(self).shut,
            final(self).name == old(self).name,
            old(self).open_count < i32::MAX ==> final(self).open_count == old(self).open_count + 1,
            old(self).instance_counter < i32::MAX ==> final(self).instance_counter == old(
                self,
            ).instance_counter + 1,
            id == old(self).instance_counter,
    {
        let id = self.instance_counter;
        if self.instance_counter < i32::MAX {
            self.instance_counter = self.instance_counter + 1;
        }
        if self.open_count < i32::MAX {
            self.open_count = self.open_count + 1;
        }
        id
    }

    /// One live endpoint gone. The count never drops below the number of
    /// blocked getters: a blocked endpoint cannot be released, since its get
    /// still borrows it. If the endpoints left are exactly the blocked ones,
    /// none can ever produce again: the close latches, and every blocked
    /// getter will be turned away.
    pub fn release_endpoint(&mut self)
        requires
            old(self).wf(),
        ensures
            final(self).wf(),
            final(self).buffer@ == old(self).buffer@,
            final(self).end_count == old(self).end_count,
            final(self).wait_count == old(self).wait_count,
            final(self).instance_counter == old(self).instance_counter,
            final(self).name == old(self).name,
            old(self).open_count > old(self).wait_count ==> final(self).open_count == old(self).open_count - 1,
            old(self).open_count <= old(self).wait_count ==> final(self).open_count == old(self).open_count,
            final(self).shut == (old(self).shut || (old(self).open_count > old(self).wait_count
                && old(self).open_count - 1 == old(self).wait_count)),
    {
        if self.open_count > self.wait_count {
            self.open_count = self.open_count - 1;
            if self.open_count == self.wait_count {
                self.shut = true;
            }
        }
    }

    /// An item joins the buffer, behind everything put before it.
    pub fn put_step(&mut self, item: T)
        requires
            old(self).wf(),
        ensures
            final(self).wf(),
            final(self).buffer@ == old(self).buffer@.push(item),
            final(self).end_count == old(self).end_count,
            final(self).open_count == old(self).open_count,
            final(self).wait_count == old(self).wait_count,
            final(self).shut == old(self).shut,
            final(self).instance_counter == old(self).instance_counter,
            final(self).name == old(self).name,
    {
        self.buffer.push(item);
    }

    /// One more endpoint that will produce no more.
    pub fn end_step(&mut self)
        requires
            old(self).wf(),
        ensures
            final(self).wf(),
            final(self).buffer@ == old(self).buffer@,
            final(self).open_count == old(self).open_count,
            final(self).wait_count == old(self).wait_count,
            final(self).shut == old(self).shut,
            final(self).instance_counter == old(self).instance_counter,
            final(self).name == old(self).name,
            old(self).end_count < i32::MAX ==> final(self).end_count == old(self).end_count + 1,
    {
        if self.end_count < i32::MAX {
            self.end_count = self.end_count + 1;
        }
    }

    /// One get attempt: the front item if one is buffered; "closed" under
    /// [`ChannelData::get_closes`] — a count-based close latches into the
    /// sticky flag, so the blocked getters close too; otherwise the caller
    /// joins the blocked getters and must poll with
    /// [`ChannelData::parked_poll`].
    pub fn get_step(&mut self) -> (r: GetStep<T>)
        requires
            old(self).wf(),
        ensures
            final(self).wf(),
            old(self).get_ready() ==> (r matches GetStep::Item(v) && v == old(self).buffer@[0]
                && final(self).buffer@ == old(self).buffer@.skip(1) && final(self).wait_count
                == old(self).wait_count && final(self).shut == old(self).shut),
            old(self).get_closes() ==> (r is Closed && final(self).buffer@ == old(self).buffer@
                && final(self).wait_count == old(self).wait_count && final(self).shut == (old(
                self,
            ).shut || old(self).end_count == 0)),
            !old(self).get_ready() && !old(self).get_closes() ==> (r is Parked
                && final(self).buffer@ == old(self).buffer@
                && final(self).wait_count == old(self).wait_count + 1
                && final(self).shut == old(self).shut),
            final(self).end_count == old(self).end_count,
            final(self).open_count == old(self).open_count,
            final(self).instance_counter == old(self).instance_counter,
            final(self).name == old(self).name,
    {
        if self.buffer.len() > 0 {
            GetStep::Item(self.buffer.remove(0))
        } else if self.end_count > 0 {
            GetStep::Closed
        } else if self.shut || self.wait_count >= self.open_count - 1 {
            self.shut = true;
            GetStep::Closed
        } else {
            self.wait_count = self.wait_count + 1;
            GetStep::Parked
        }
    }

    /// One poll by a blocked getter: it leaves with the front item once one
    /// arrives, leaves with "closed" under [`ChannelData::parked_closes`],
    /// and otherwise stays blocked. The close conditions are sticky, so a
    /// getter that leaves never hides the close from the ones still blocked.
    pub fn parked_poll(&mut self) -> (r: ParkedStep<T>)
        requires
            old(self).wf(),
        ensures
            final(self).wf(),
            old(self).get_ready() ==> (r matches ParkedStep::Item(v) && v == old(self).buffer@[0]
                && final(self).buffer@ == old(self).buffer@.skip(1) && final(self).wait_count
                == old(self).parked_leave().wait_count && final(self).shut == old(self).shut),
            old(self).parked_closes() ==> r is Closed && *final(self) == old(self).parked_leave(),
            !old(self).get_ready() && !old(self).parked_closes() ==> r is Waiting && *final(self)
                == *old(self),
            final(self).end_count == old(self).end_count,
            final(self).open_count == old(self).open_count,
            final(self).instance_counter == old(self).instance_counter,
            final(self).name == old(self).name,
    {
        if self.buffer.len() > 0 {
            let item = self.buffer.remove(0);
            if self.wait_count > 0 {
                self.wait_count = self.wait_count - 1;
            }
            ParkedStep::Item(item)
        } else if self.end_count > 0 || self.shut {
            if self.wait_count > 0 {
                self.wait_count = self.wait_count - 1;
            }
            ParkedStep::Closed
        } else {
            ParkedStep::Waiting
        }
    }
}

/// What one get attempt decided.
pub enum GetStep<T> {
    /// The front item.
    Item(T),
    /// No more items can come.
    Closed,
    /// The caller is now counted among the blocked getters.
    Parked,
}

/// What one poll by a blocked getter decided.
pub enum ParkedStep<T> {
    /// The front item; the getter has left the blocked set.
    Item(T),
    /// No more items can come; the getter has left the blocked set.
    Closed,
    /// Still nothing: keep waiting.
    Waiting,
}

pub open spec fn channel_inv<T>() -> spec_fn(ChannelData<T>) -> bool {
    |s: ChannelData<T>| s.wf()
}

/// One verified poll for a blocked getter: takes the lock, applies
/// [`ChannelData::parked_poll`], releases.
fn poll_parked<T>(shared: &Arc<RwLock<ChannelData<T>, spec_fn(ChannelData<T>) -> bool>>) -> (r:
    ParkedStep<T>)
    requires
        shared.pred() == channel_inv::<T>(),
{
    let (mut s, handle) = shared.acquire_write();
    let r = s.parked_poll();
    handle.release_write(s);
    r
}

/// Relies on std::hint::spin_loop to stall between polls. Blocks until
/// [`poll_parked`] hands the getter an item or "closed"; the wait is
/// unbounded (another endpoint must put, end or release), which is why this
/// one retry loop is not verified.
#[verifier::external_body]
fn spin_parked<T>(shared: &Arc<RwLock<ChannelData<T>, spec_fn(ChannelData<T>) -> bool>>) -> Option<
    T,
> {
    loop {
        match poll_parked(shared) {
            ParkedStep::Item(item) => {
                return Some(item);
            },
            ParkedStep::Closed => {
                return None;
            },
            ParkedStep::Waiting => std::hint::spin_loop(),
        }
    }
}

/// One cloneable endpoint onto a shared closing queue.
#[verifier::reject_recursive_types(T)]
pub struct Channel<T> {
    data: Arc<RwLock<ChannelData<T>, spec_fn(ChannelData<T>) -> bool>>,
    instance_id: i32,
}

impl<T> Channel<T> {
    #[verifier::type_invariant]
    spec fn wf_handle(self) -> bool {
        self.data.pred() == channel_inv::<T>()
    }

    pub fn new() -> Self {
        Channel::named("")
    }

    /// A fresh queue with one endpoint; the label is diagnostic only.
    pub fn named(name: &str) -> Self {
        let mut state = ChannelData::new(name);
        let instance_id = state.register_endpoint();
        Channel {
            data: Arc::new(RwLock::new(state, Ghost(channel_inv::<T>()))),
            instance_id,
        }
    }

    /// Declares that this endpoint will produce no more. Once any endpoint
    /// has done so, every getter that finds the buffer empty is told
    /// "closed".
    pub fn end(&self) {
        proof {
            use_type_invariant(self);
        }
        let (mut s, handle) = self.data.acquire_write();
        s.end_step();
        handle.release_write(s);
    }

    /// Appends an item; always succeeds, there is no capacity limit. One
    /// blocked getter will pick it up.
    pub fn put(&self, item: T) {
        proof {
            use_type_invariant(self);
        }
        let (mut s, handle) = self.data.acquire_write();
        s.put_step(item);
        handle.release_write(s);
    }

    /// Takes the item put earliest, or reports the queue closed: items come
    /// out in put order, each delivered to exactly one getter. With nothing
    /// buffered, "closed" (`None`) comes when some endpoint has ended, or
    /// when this call would leave every live endpoint blocked at once — then
    /// no endpoint could ever produce again. Otherwise the call blocks until
    /// an item arrives or the queue closes.
    pub fn get(&self) -> Option<T> {
        proof {
            use_type_invariant(self);
        }
        let (mut s, handle) = self.data.acquire_write();
        let step = s.get_step();
        handle.release_write(s);
        match step {
            GetStep::Item(item) => Some(item),
            GetStep::Closed => None,
            GetStep::Parked => spin_parked(&self.data),
        }
    }

    /// Releases this endpoint: the live count drops, and getters re-evaluate
    /// the closing rules. The counterpart of cloning.
    pub fn release(self) {
        proof {
            use_type_invariant(&self);
        }
        let (mut s, handle) = self.data.acquire_write();
        s.release_endpoint();
        handle.release_write(s);
    }
}

impl<T> Clone for Channel<T> {
    /// One more endpoint onto the same queue, with a fresh instance id.
    fn clone(&self) -> Self {
        proof {
            use_type_invariant(self);
        }
        let (mut s, handle) = self.data.acquire_write();
        let instance_id = s.register_endpoint();
        handle.release_write(s);
        Channel { data: self.data.clone(), instance_id }
    }
}

/// The items that `n` get steps deliver from a buffer holding `q`: each step
/// takes the front, as [`ChannelData::get_step`] does.
pub open spec fn delivered_values<T>(q: Seq<T>, n: nat) -> Seq<T>
    decreases n,
{
    if n == 0 || q.len() == 0 {
        Seq::empty()
    } else {
        seq![q[0]] + delivered_values(q.skip(1), (n - 1) as nat)
    }
}

/// First in, first out: however many getters drain a queue whose buffer
/// holds the items in put order, taking one front item at a time yields a
/// prefix of them, in put order — all of them once `n` covers the buffer.
pub proof fn lemma_queue_fifo<T>(items: Seq<T>, n: nat)
    ensures
        delivered_values(items, n) == items.take(if n <= items.len() {
            n as int
        } else {
            items.len() as int
        }),
    decreases n,
{
    if n == 0 || items.len() == 0 {
        assert(delivered_values(items, n) =~= items.take(0));
    } else {
        lemma_queue_fifo(items.skip(1), (n - 1) as nat);
        let k = if n <= items.len() { n as int } else { items.len() as int };
        assert(delivered_values(items, n) =~= items.take(k));
    }
}

/// Auto-close: a sole endpoint that has consumed everything is told
/// "closed" by its next get, with no explicit end call — blocking would
/// leave no endpoint able to produce.
pub proof fn lemma_auto_close<T>(s: ChannelData<T>)
    requires
        s.wf(),
        s.buffer@.len() == 0,
        s.open_count == 1,
        s.wait_count == 0,
    ensures
        s.get_closes(),
{
}

/// Whether `k` successive blocked getters, polling one after the other, are
/// each told "closed".
pub open spec fn parked_all_close<T>(s: ChannelData<T>, k: nat) -> bool
    decreases k,
{
    if k == 0 {
        true
    } else {
        s.parked_closes() && parked_all_close(s.parked_leave(), (k - 1) as nat)
    }
}

/// Multi-endpoint close: once the buffer is empty and the queue is closing —
/// some endpoint has ended, or a count-based close has latched, as
/// [`ChannelData::get_step`] does when a getter would be the last producer
/// and [`ChannelData::release_endpoint`] does when the leaving endpoint was —
/// every blocked getter, however many there are, is told "closed" exactly
/// once, each leaving the blocked set as it goes; none keeps waiting.
pub proof fn lemma_close_broadcast<T>(s: ChannelData<T>, k: nat)
    requires
        s.wf(),
        s.buffer@.len() == 0,
        s.end_count > 0 || s.shut,
        k <= s.wait_count,
    ensures
        parked_all_close(s, k),
    decreases k,
{
    if k > 0 {
        assert(s.parked_closes());
        lemma_close_broadcast(s.parked_leave(), (k - 1) as nat);
    }
}

} // verus!
