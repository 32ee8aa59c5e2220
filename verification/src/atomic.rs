//! A shared signed 32-bit counter with fetch-and-modify operations.
//!
//! The arithmetic of every operation is the verified function [`apply_delta`];
//! the handle only moves values in and out of the lock. The sum of any series
//! of deltas is pinned down by [`lemma_counter_sum`].

use std::sync::Arc;
use vstd::prelude::*;
use vstd::rwlock::RwLock;

verus! {

/// The mathematical value `v` wrapped into the two's-complement range of a
/// signed 32-bit integer.
pub open spec fn wrap_i32(v: int) -> int {
    if v > i32::MAX {
        v - 0x1_0000_0000
    } else if v < i32::MIN {
        v + 0x1_0000_0000
    } else {
        v
    }
}

/// Folding a series of deltas into a starting value, each step wrapping as a
/// signed 32-bit addition does.
pub open spec fn fold_deltas(start: int, deltas: Seq<int>) -> int
    decreases deltas.len(),
{
    if deltas.len() == 0 {
        start
    } else {
        fold_deltas(wrap_i32(start + deltas[0]), deltas.skip(1))
    }
}

/// The exact sum of a series of deltas.
pub open spec fn sum_deltas(deltas: Seq<int>) -> int
    decreases deltas.len(),
{
    if deltas.len() == 0 {
        0
    } else {
        deltas[0] + sum_deltas(deltas.skip(1))
    }
}

/// One fetch-and-add step: the stored value after adding `delta` to `value`,
/// wrapping around on overflow exactly as the machine addition does.
pub fn apply_delta(value: i32, delta: i32) -> (r: i32)
    ensures
        r as int == wrap_i32(value + delta),
{
    value.wrapping_add(delta)
}

/// One fetch-and-subtract step, the mirror image of [`apply_delta`].
pub fn apply_delta_sub(value: i32, delta: i32) -> (r: i32)
    ensures
        r as int == wrap_i32(value - delta),
{
    value.wrapping_sub(delta)
}

pub open spec fn counter_inv() -> spec_fn(i32) -> bool {
    |v: i32| true
}

/// A counter whose handles all address one shared integer. Every operation
/// takes the lock, applies [`apply_delta`] or a plain read or write, and
/// releases it, so concurrent operations apply one at a time.
pub struct AtomicInteger {
    cell: Arc<RwLock<i32, spec_fn(i32) -> bool>>,
}

impl AtomicInteger {
    #[verifier::type_invariant]
    spec fn wf(self) -> bool {
        self.cell.pred() == counter_inv()
    }

    pub fn new(value: i32) -> Self {
        AtomicInteger { cell: Arc::new(RwLock::new(value, Ghost(counter_inv()))) }
    }

    /// Adds `value`, wrapping on overflow; returns the previous value.
    pub fn add(&self, value: i32) -> i32 {
        proof {
            use_type_invariant(self);
        }
        let (prev, handle) = self.cell.acquire_write();
        handle.release_write(apply_delta(prev, value));
        prev
    }

    /// Subtracts `value`, wrapping on overflow; returns the previous value.
    pub fn sub(&self, value: i32) -> i32 {
        proof {
            use_type_invariant(self);
        }
        let (prev, handle) = self.cell.acquire_write();
        handle.release_write(apply_delta_sub(prev, value));
        prev
    }

    /// Adds one; returns the previous value.
    pub fn increment(&self) -> i32 {
        self.add(1)
    }

    /// Subtracts one; returns the previous value.
    pub fn decrement(&self) -> i32 {
        self.sub(1)
    }

    /// The value at the moment of the read.
    pub fn get(&self) -> i32 {
        proof {
            use_type_invariant(self);
        }
        let read = self.cell.acquire_read();
        let value = *read.borrow();
        read.release_read();
        value
    }

    /// Overwrites the value.
    pub fn set(&self, value: i32) {
        proof {
            use_type_invariant(self);
        }
        let (_, handle) = self.cell.acquire_write();
        handle.release_write(value);
    }
}

impl Clone for AtomicInteger {
    /// Another handle onto the same shared integer.
    fn clone(&self) -> Self {
        proof {
            use_type_invariant(self);
        }
        AtomicInteger { cell: self.cell.clone() }
    }
}

/// Folding a series of deltas one step at a time is linear: the outcome
/// agrees with the starting value plus their algebraic sum, modulo the
/// 32-bit range, whatever order the wrapping happened in.
pub proof fn lemma_counter_sum(start: int, deltas: Seq<int>)
    requires
        i32::MIN <= start <= i32::MAX,
        forall|i: int| 0 <= i < deltas.len() ==> i32::MIN <= #[trigger] deltas[i] <= i32::MAX,
    ensures
        fold_deltas(start, deltas) % 0x1_0000_0000
            == (sum_deltas(deltas) + start) % 0x1_0000_0000,
        i32::MIN <= fold_deltas(start, deltas) <= i32::MAX,
    decreases deltas.len(),
{
    if deltas.len() == 0 {
    } else {
        let next = wrap_i32(start + deltas[0]);
        lemma_counter_sum(next, deltas.skip(1));
        assert(next % 0x1_0000_0000 == (start + deltas[0]) % 0x1_0000_0000) by {
            vstd::arithmetic::div_mod::lemma_mod_sub_multiples_vanish(
                start + deltas[0],
                0x1_0000_0000,
            );
            vstd::arithmetic::div_mod::lemma_mod_add_multiples_vanish(
                start + deltas[0],
                0x1_0000_0000,
            );
        }
        assert((sum_deltas(deltas.skip(1)) + next) % 0x1_0000_0000
            == (sum_deltas(deltas) + start) % 0x1_0000_0000) by {
            vstd::arithmetic::div_mod::lemma_add_mod_noop(
                sum_deltas(deltas.skip(1)),
                next,
                0x1_0000_0000,
            );
            vstd::arithmetic::div_mod::lemma_add_mod_noop(
                sum_deltas(deltas.skip(1)),
                start + deltas[0],
                0x1_0000_0000,
            );
            assert(next % 0x1_0000_0000 == (start + deltas[0]) % 0x1_0000_0000);
            assert(sum_deltas(deltas.skip(1)) + start + deltas[0] == sum_deltas(deltas) + start);
        }
    }
}

/// The counter is exact whenever no overflow occurs: if the starting value
/// plus the algebraic sum of all deltas lies in the signed 32-bit range,
/// applying them one at a time — in any interleaving, since addition
/// commutes — ends with exactly that sum.
pub proof fn lemma_counter_exact(start: int, deltas: Seq<int>)
    requires
        i32::MIN <= start <= i32::MAX,
        forall|i: int| 0 <= i < deltas.len() ==> i32::MIN <= #[trigger] deltas[i] <= i32::MAX,
        i32::MIN <= start + sum_deltas(deltas) <= i32::MAX,
    ensures
        fold_deltas(start, deltas) == start + sum_deltas(deltas),
{
    lemma_counter_sum(start, deltas);
    let folded = fold_deltas(start, deltas);
    let exact = start + sum_deltas(deltas);
    let gap = folded - exact;
    assert(gap % 0x1_0000_0000 == 0) by {
        vstd::arithmetic::div_mod::lemma_mod_equivalence(folded, exact, 0x1_0000_0000);
    }
    assert(-0x1_0000_0000 < gap < 0x1_0000_0000);
    if gap != 0 {
        if gap > 0 {
            vstd::arithmetic::div_mod::lemma_small_mod(gap as nat, 0x1_0000_0000);
        } else {
            vstd::arithmetic::div_mod::lemma_mod_add_multiples_vanish(gap, 0x1_0000_0000);
            vstd::arithmetic::div_mod::lemma_small_mod((gap + 0x1_0000_0000) as nat, 0x1_0000_0000);
        }
        assert(false);
    }
}

} // verus!
