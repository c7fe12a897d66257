//! The ring of predicted positions.
//!
//! Every mass keeps the positions of the next `PREDICT_COUNT` simulation steps
//! in a fixed array that is used as a ring: one index says where the oldest
//! position is drawn and the newest one is written, and it moves forward by
//! one slot after each write, wrapping round at the end of the array.

use vstd::prelude::*;

verus! {

/// Number of slots in the ring of predicted positions of every mass.
pub const PREDICT_COUNT: usize = 1000;

/// The slot that follows `index` in the ring.
pub open spec fn spec_next_index(index: int) -> int {
    (index + 1) % (PREDICT_COUNT as int)
}

/// The slot reached from `index` after `steps` moves forward.
pub open spec fn spec_advance(index: int, steps: nat) -> int
    decreases steps,
{
    if steps == 0 {
        index
    } else {
        spec_next_index(spec_advance(index, (steps - 1) as nat))
    }
}

/// Moves a ring index one slot forward, wrapping round after the last slot.
pub fn next_index(index: usize) -> (next: usize)
    requires
        index < PREDICT_COUNT,
    ensures
        next == spec_next_index(index as int),
        next < PREDICT_COUNT,
{
    (index + 1) % PREDICT_COUNT
}

/// The slot after a slot is the next one up, and after the last slot comes
/// the first: the index always names a slot of the ring.
pub proof fn lemma_next_index_steps_once(index: int)
    requires
        0 <= index < PREDICT_COUNT,
    ensures
        index + 1 < PREDICT_COUNT ==> spec_next_index(index) == index + 1,
        index + 1 == PREDICT_COUNT ==> spec_next_index(index) == 0,
        0 <= spec_next_index(index) < PREDICT_COUNT,
{
}

/// Moving `steps` slots forward from a slot of the ring lands on
/// `(index + steps) % PREDICT_COUNT`.
pub proof fn lemma_advance_is_offset(index: int, steps: nat)
    requires
        0 <= index < PREDICT_COUNT,
    ensures
        spec_advance(index, steps) == (index + steps) % (PREDICT_COUNT as int),
    decreases steps,
{
    if steps > 0 {
        lemma_advance_is_offset(index, (steps - 1) as nat);
        let n = PREDICT_COUNT as int;
        let prev = (index + steps - 1) % n;
        assert((prev + 1) % n == (index + steps) % n) by {
            vstd::arithmetic::div_mod::lemma_add_mod_noop(index + steps - 1, 1, n);
            vstd::arithmetic::div_mod::lemma_mod_twice(index + steps - 1, n);
            vstd::arithmetic::div_mod::lemma_small_mod(1, n as nat);
        }
    }
}

/// A full round of `PREDICT_COUNT` moves brings any slot of the ring back to
/// itself: after predicting a whole ring of positions the index is where it
/// started.
pub proof fn lemma_full_round_returns(index: int)
    requires
        0 <= index < PREDICT_COUNT,
    ensures
        spec_advance(index, PREDICT_COUNT as nat) == index,
{
    lemma_advance_is_offset(index, PREDICT_COUNT as nat);
    vstd::arithmetic::div_mod::lemma_mod_add_multiples_vanish(index, PREDICT_COUNT as int);
    vstd::arithmetic::div_mod::lemma_small_mod(index as nat, PREDICT_COUNT as nat);
}

/// Fewer than `PREDICT_COUNT` moves never come back to the starting slot: the
/// slots written during one round of prediction are all different.
pub proof fn lemma_round_visits_distinct(index: int, a: nat, b: nat)
    requires
        0 <= index < PREDICT_COUNT,
        a < b < PREDICT_COUNT,
    ensures
        spec_advance(index, a) != spec_advance(index, b),
{
    lemma_advance_is_offset(index, a);
    lemma_advance_is_offset(index, b);
    let n = PREDICT_COUNT as int;
    if (index + a) % n == (index + b) % n {
        vstd::arithmetic::div_mod::lemma_fundamental_div_mod(index + a, n);
        vstd::arithmetic::div_mod::lemma_fundamental_div_mod(index + b, n);
        assert(0 <= index + a < 2 * n);
        assert(0 <= index + b < 2 * n);
        assert((index + a) / n == 0 || (index + a) / n == 1) by (nonlinear_arith)
            requires 0 <= index + a < 2 * n, n > 0, (index + a) == n * ((index + a) / n) + (index + a) % n, 0 <= (index + a) % n < n;
        assert((index + b) / n == 0 || (index + b) / n == 1) by (nonlinear_arith)
            requires 0 <= index + b < 2 * n, n > 0, (index + b) == n * ((index + b) / n) + (index + b) % n, 0 <= (index + b) % n < n;
    }
}

} // verus!
