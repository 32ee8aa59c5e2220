//! Broadcast signals, gates, and an idleness tracker.
//!
//! A [`Signal`] is edge-triggered: a waiter watches the generation counter and
//! returns once it moves past the value it saw on entry, so a wakeup that
//! fired before the wait began is missed. A [`Gate`] is level-triggered: the
//! waiter watches the boolean itself, so an already-open gate never blocks.
//! An [`IdleTracker`] is the level-triggered form of "wait until no task
//! runs": the running count and the wait watch one lock, so idleness cannot
//! slip between a check and a block.

use std::sync::Arc;
use vstd::prelude::*;
use vstd::rwlock::RwLock;

verus! {

pub open spec fn signal_inv() -> spec_fn(u32) -> bool {
    |v: u32| true
}

pub open spec fn gate_inv() -> spec_fn(bool) -> bool {
    |v: bool| true
}

/// The generation counter after one more signal call: it advances by one and
/// wraps around at the top of the unsigned 32-bit range.
pub open spec fn next_generation(g: u32) -> u32 {
    if g == u32::MAX {
        0
    } else {
        (g + 1) as u32
    }
}

/// An edge-triggered wake-all / wake-one primitive: a generation counter
/// shared by all handles. Waiters block until the counter moves.
pub struct Signal {
    state: Arc<RwLock<u32, spec_fn(u32) -> bool>>,
}

/// One verified poll of the generation counter: the counter's value once it
/// has moved past `seen`, and nothing while it still reads `seen`.
fn poll_moved(state: &Arc<RwLock<u32, spec_fn(u32) -> bool>>, seen: u32) -> (r: Option<u32>)
    requires
        state.pred() == signal_inv(),
    ensures
        r matches Some(now) ==> now != seen,
{
    let read = state.acquire_read();
    let now = *read.borrow();
    read.release_read();
    if now != seen {
        Some(now)
    } else {
        None
    }
}

/// Relies on std::hint::spin_loop to stall between polls. Retries the
/// verified [`poll_moved`] until the counter moves; the wait is unbounded
/// (another handle must move the counter), which is why this one retry loop
/// is not verified.
#[verifier::external_body]
fn spin_until_moved(state: &Arc<RwLock<u32, spec_fn(u32) -> bool>>, seen: u32) -> (r: u32)
    ensures
        r != seen,
{
    loop {
        if let Some(now) = poll_moved(state, seen) {
            return now;
        }
        std::hint::spin_loop();
    }
}

impl Signal {
    pub fn new() -> Self {
        Signal { state: Arc::new(RwLock::new(0, Ghost(signal_inv()))) }
    }

    /// Advances the generation counter; every current waiter observes the
    /// move and returns.
    pub fn signal_all(&self) {
        proof {
            use_type_invariant(self);
        }
        let (value, handle) = self.state.acquire_write();
        handle.release_write(bump_generation(value));
    }

    /// Advances the generation counter. Waiters poll the counter, so this
    /// cannot single out one of them: like [`Signal::signal_all`], every
    /// current waiter observes the move.
    pub fn signal_one(&self) {
        proof {
            use_type_invariant(self);
        }
        let (value, handle) = self.state.acquire_write();
        handle.release_write(bump_generation(value));
    }

    /// Blocks until the next signal call, then returns the counter value it
    /// observed. Edge-triggered: a signal that fired before this call began
    /// is not seen.
    pub fn wait(&self) -> u32 {
        proof {
            use_type_invariant(self);
        }
        let read = self.state.acquire_read();
        let seen = *read.borrow();
        read.release_read();
        spin_until_moved(&self.state, seen)
    }

    #[verifier::type_invariant]
    spec fn wf(self) -> bool {
        self.state.pred() == signal_inv()
    }
}

impl Clone for Signal {
    /// Another handle onto the same generation counter.
    fn clone(&self) -> Self {
        proof {
            use_type_invariant(self);
        }
        Signal { state: self.state.clone() }
    }
}

/// One signal step on the generation counter.
pub fn bump_generation(g: u32) -> (r: u32)
    ensures
        r == next_generation(g),
{
    g.wrapping_add(1)
}

/// A level-triggered boolean: waiting on an open gate returns at once,
/// however it came to be open; waiting on a closed one blocks until some
/// handle opens it.
pub struct Gate {
    state: Arc<RwLock<bool, spec_fn(bool) -> bool>>,
}

/// One verified poll of the shared boolean: whether it read open.
fn poll_open(state: &Arc<RwLock<bool, spec_fn(bool) -> bool>>) -> bool
    requires
        state.pred() == gate_inv(),
{
    let read = state.acquire_read();
    let open = *read.borrow();
    read.release_read();
    open
}

/// Relies on std::hint::spin_loop to stall between polls. Retries the
/// verified [`poll_open`] until it reads open; the wait is unbounded
/// (another handle has to open it), which is why this one retry loop is not
/// verified.
#[verifier::external_body]
fn spin_until_open(state: &Arc<RwLock<bool, spec_fn(bool) -> bool>>) {
    loop {
        if poll_open(state) {
            return;
        }
        std::hint::spin_loop();
    }
}

impl Gate {
    pub fn new() -> Self {
        Gate { state: Arc::new(RwLock::new(false, Ghost(gate_inv()))) }
    }

    /// A gate already wrapped for sharing across threads.
    pub fn arc() -> Arc<Self> {
        Arc::new(Gate::new())
    }

    /// Opens: every current and future waiter passes until the next
    /// [`Gate::close`].
    pub fn open(&self) {
        proof {
            use_type_invariant(self);
        }
        let (_, handle) = self.state.acquire_write();
        handle.release_write(true);
    }

    /// Closes: waits that begin after this observe a closed state.
    pub fn close(&self) {
        proof {
            use_type_invariant(self);
        }
        let (_, handle) = self.state.acquire_write();
        handle.release_write(false);
    }

    /// Returns once an open state is observed. Level-triggered: a state
    /// that is already open is seen on the first poll, with no blocking.
    pub fn wait(&self) {
        proof {
            use_type_invariant(self);
        }
        if !poll_open(&self.state) {
            spin_until_open(&self.state);
        }
    }

    #[verifier::type_invariant]
    spec fn wf(self) -> bool {
        self.state.pred() == gate_inv()
    }
}

impl Clone for Gate {
    /// Another handle onto the same boolean.
    fn clone(&self) -> Self {
        proof {
            use_type_invariant(self);
        }
        Gate { state: self.state.clone() }
    }
}

pub open spec fn idle_inv() -> spec_fn(i32) -> bool {
    |v: i32| v >= 0
}

/// One task more on a running count, holding at the top of the range.
pub fn count_started(running: i32) -> (r: i32)
    requires
        running >= 0,
    ensures
        r == if running < i32::MAX {
            running + 1
        } else {
            running as int
        },
        r > 0,
{
    if running < i32::MAX {
        running + 1
    } else {
        running
    }
}

/// One task fewer on a running count, holding at zero.
pub fn count_finished(running: i32) -> (r: i32)
    requires
        running >= 0,
    ensures
        r == if running > 0 {
            running - 1
        } else {
            0
        },
        r >= 0,
{
    if running > 0 {
        running - 1
    } else {
        0
    }
}

/// A running-task count whose idleness wait is level-triggered, like a
/// [`Gate`]: a waiter polls the count itself, so a pool that is already idle
/// is seen at once, and idleness reached before the wait began cannot be
/// missed the way an edge-triggered signal can miss it.
pub struct IdleTracker {
    state: Arc<RwLock<i32, spec_fn(i32) -> bool>>,
}

/// One verified poll of the running count: whether it read zero.
fn poll_idle(state: &Arc<RwLock<i32, spec_fn(i32) -> bool>>) -> bool
    requires
        state.pred() == idle_inv(),
{
    let read = state.acquire_read();
    let running = *read.borrow();
    read.release_read();
    running == 0
}

/// Relies on std::hint::spin_loop to stall between polls. Retries the
/// verified [`poll_idle`] until the count reads zero; the wait is unbounded
/// (running tasks must finish), which is why this one retry loop is not
/// verified.
#[verifier::external_body]
fn spin_until_idle(state: &Arc<RwLock<i32, spec_fn(i32) -> bool>>) {
    loop {
        if poll_idle(state) {
            return;
        }
        std::hint::spin_loop();
    }
}

impl IdleTracker {
    #[verifier::type_invariant]
    spec fn wf(self) -> bool {
        self.state.pred() == idle_inv()
    }

    pub fn new() -> Self {
        IdleTracker { state: Arc::new(RwLock::new(0, Ghost(idle_inv()))) }
    }

    /// One task has begun: the running count steps up by
    /// [`count_started`].
    pub fn task_started(&self) {
        proof {
            use_type_invariant(self);
        }
        let (running, handle) = self.state.acquire_write();
        handle.release_write(count_started(running));
    }

    /// One task is done: the running count steps down by
    /// [`count_finished`]. Reports whether that left the count at zero —
    /// the pool went idle at this very step.
    pub fn task_finished(&self) -> bool {
        proof {
            use_type_invariant(self);
        }
        let (running, handle) = self.state.acquire_write();
        let next = count_finished(running);
        handle.release_write(next);
        next == 0
    }

    /// The running count at the moment of the read.
    pub fn running(&self) -> i32 {
        proof {
            use_type_invariant(self);
        }
        let read = self.state.acquire_read();
        let running = *read.borrow();
        read.release_read();
        running
    }

    /// Blocks until no task is running; a count already at zero is seen on
    /// the first poll, with no blocking.
    pub fn wait(&self) {
        proof {
            use_type_invariant(self);
        }
        if !poll_idle(&self.state) {
            spin_until_idle(&self.state);
        }
    }
}

impl Clone for IdleTracker {
    /// Another handle onto the same running count.
    fn clone(&self) -> Self {
        proof {
            use_type_invariant(self);
        }
        IdleTracker { state: self.state.clone() }
    }
}

/// A [`Gate`] as a state machine: the state after a series of calls, each
/// either an open (`true`) or a close (`false`).
pub open spec fn gate_after(start: bool, calls: Seq<bool>) -> bool
    decreases calls.len(),
{
    if calls.len() == 0 {
        start
    } else {
        gate_after(calls[0], calls.skip(1))
    }
}

/// Opening is idempotent and level-triggered: after any non-empty series of
/// calls that are all opens, an open state holds — no matter how often it
/// was opened, and whatever it held before — so a wait that then polls it
/// passes on the first poll.
pub proof fn lemma_gate_open_idempotent(start: bool, calls: Seq<bool>)
    requires
        calls.len() > 0,
        forall|i: int| 0 <= i < calls.len() ==> calls[i] == true,
    ensures
        gate_after(start, calls) == true,
    decreases calls.len(),
{
    assert(calls[0] == true);
    assert(gate_after(start, calls) == gate_after(calls[0], calls.skip(1)));
    if calls.len() > 1 {
        assert(forall|i: int| 0 <= i < calls.skip(1).len() ==> calls.skip(1)[i] == calls[i + 1]);
        lemma_gate_open_idempotent(calls[0], calls.skip(1));
    } else {
        assert(calls.skip(1).len() == 0);
        assert(gate_after(calls[0], calls.skip(1)) == calls[0]);
    }
}

} // verus!
