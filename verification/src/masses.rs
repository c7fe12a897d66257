//! The collection of masses of a scene and its ring index of predicted
//! positions.
//!
//! The bodies themselves (their positions, velocities and masses) are of a
//! type chosen by the user of the collection; the collection decides where
//! they stand, at which slot of the ring the next position is written, and
//! which pairs of masses pull on each other in one simulation step.

use vstd::prelude::*;
use crate::prediction::{PREDICT_COUNT, next_index, spec_next_index};

verus! {

/// The pairs `(row, j)` with `row < j < n`, by increasing `j`.
pub open spec fn drag_row(row: int, n: int) -> Seq<(usize, usize)> {
    Seq::new(
        (if row + 1 < n { n - row - 1 } else { 0 }) as nat,
        |k: int| (row as usize, (row + 1 + k) as usize),
    )
}

/// The rows `0 .. rows` of the drag schedule of `n` masses, one after another.
pub open spec fn drag_rows(rows: nat, n: int) -> Seq<(usize, usize)>
    decreases rows,
{
    if rows == 0 {
        Seq::empty()
    } else {
        drag_rows((rows - 1) as nat, n) + drag_row(rows - 1, n)
    }
}

/// The order in which the masses of a collection of `n` pull on each other in
/// one step: every pair `(i, j)` with `i < j < n`, by increasing `i`, and for
/// equal `i` by increasing `j`.
pub open spec fn drag_schedule(n: nat) -> Seq<(usize, usize)> {
    drag_rows(n, n as int)
}

/// Pair `p` comes strictly before pair `q` in lexicographic order.
pub open spec fn pair_before(p: (usize, usize), q: (usize, usize)) -> bool {
    p.0 < q.0 || (p.0 == q.0 && p.1 < q.1)
}

/// A collection of masses with the ring index of their predicted positions.
#[derive(Clone, Debug)]
pub struct Masses<M> {
    masses: Vec<M>,
    positions_index: usize,
}

impl<M> Masses<M> {
    /// The masses, in the order in which they were added.
    pub closed spec fn bodies(&self) -> Seq<M> {
        self.masses@
    }

    /// The ring slot at which the oldest position is drawn and the next one
    /// written.
    pub closed spec fn spec_positions_index(&self) -> nat {
        self.positions_index as nat
    }

    /// The ring index always names a slot of the ring.
    pub closed spec fn wf(&self) -> bool {
        self.positions_index < PREDICT_COUNT
    }

    /// In a well-formed collection the ring index names a slot of the ring.
    pub proof fn lemma_wf_index_in_ring(&self)
        requires
            self.wf(),
        ensures
            self.spec_positions_index() < PREDICT_COUNT,
    {
    }

    /// An empty collection whose ring index is at the first slot.
    pub fn new() -> (masses: Self)
        ensures
            masses.wf(),
            masses.bodies() == Seq::<M>::empty(),
            masses.spec_positions_index() == 0,
    {
        Masses { masses: Vec::new(), positions_index: 0 }
    }

    /// The current ring slot.
    pub fn positions_index(&self) -> (index: usize)
        requires
            self.wf(),
        ensures
            index == self.spec_positions_index(),
            index < PREDICT_COUNT,
    {
        self.positions_index
    }

    /// The current ring slot (the same as `positions_index`).
    pub fn get_position(&self) -> (index: usize)
        requires
            self.wf(),
        ensures
            index == self.spec_positions_index(),
            index < PREDICT_COUNT,
    {
        self.positions_index
    }

    /// Moves the ring index one slot forward, wrapping round after the last
    /// slot; the masses are not touched.
    pub fn inc_position(&mut self)
        requires
            old(self).wf(),
        ensures
            final(self).wf(),
            final(self).bodies() == old(self).bodies(),
            final(self).spec_positions_index() == spec_next_index(
                old(self).spec_positions_index() as int,
            ),
    {
        self.positions_index = next_index(self.positions_index);
    }

    /// Number of masses in the collection.
    pub fn len(&self) -> (n: usize)
        ensures
            n == self.bodies().len(),
    {
        self.masses.len()
    }

    /// Appends a mass and returns the index at which it now stands.
    pub fn add_at_place(&mut self, mass: M) -> (index: usize)
        requires
            old(self).wf(),
        ensures
            final(self).wf(),
            final(self).bodies() == old(self).bodies().push(mass),
            final(self).spec_positions_index() == old(self).spec_positions_index(),
            index == old(self).bodies().len(),
            final(self).bodies()[index as int] == mass,
    {
        self.masses.push(mass);
        self.masses.len() - 1
    }

    /// The mass at `index`.
    pub fn get(&self, index: usize) -> (mass: &M)
        requires
            index < self.bodies().len(),
        ensures
            *mass == self.bodies()[index as int],
    {
        &self.masses[index]
    }

    /// Mutable access to the mass at `index`; the other masses and the ring
    /// index stay as they are.
    pub fn get_from_index(&mut self, index: usize) -> (mass: &mut M)
        requires
            old(self).wf(),
            index < old(self).bodies().len(),
        ensures
            *mass == old(self).bodies()[index as int],
            final(self).wf(),
            final(self).bodies() == old(self).bodies().update(index as int, *final(mass)),
            final(self).spec_positions_index() == old(self).spec_positions_index(),
    {
        &mut self.masses[index]
    }
}


impl<M> Masses<M> {
    /// The pairs of masses that pull on each other in one simulation step, in
    /// the order in which the pulls are applied: for each pair `(i, j)` mass
    /// `i` pulls mass `j`, then mass `j` pulls mass `i`.
    pub fn drag_pairs(&self) -> (pairs: Vec<(usize, usize)>)
        ensures
            pairs@ == drag_schedule(self.bodies().len()),
    {
        let n = self.masses.len();
        let mut pairs: Vec<(usize, usize)> = Vec::new();
        let mut i: usize = 0;
        while i < n
            invariant
                n == self.bodies().len(),
                i <= n,
                pairs@ == drag_rows(i as nat, n as int),
            decreases n - i,
        {
            let ghost before = pairs@;
            let mut j: usize = i + 1;
            while j < n
                invariant
                    n == self.bodies().len(),
                    i < n,
                    i + 1 <= j <= n,
                    pairs@ == before + drag_row(i as int, n as int).take(j - i - 1),
                decreases n - j,
            {
                pairs.push((i, j));
                assert(drag_row(i as int, n as int).take(j - i) =~= drag_row(
                    i as int,
                    n as int,
                ).take(j - i - 1).push((i, j)));
                j = j + 1;
            }
            assert(drag_row(i as int, n as int).take(n - i - 1) =~= drag_row(i as int, n as int));
            i = i + 1;
        }
        pairs
    }
}

/// Every pair in the first `rows` rows of the schedule of `n` masses is an
/// ordered pair of distinct masses whose first index is below `rows`, and the
/// rows come in strictly increasing lexicographic order.
proof fn lemma_drag_rows_shape(rows: nat, n: int)
    requires
        rows <= n,
        n <= usize::MAX,
    ensures
        forall|k: int|
            0 <= k < drag_rows(rows, n).len() ==> {
                let p = #[trigger] drag_rows(rows, n)[k];
                p.0 < p.1 < n && p.0 < rows
            },
        forall|k1: int, k2: int|
            0 <= k1 < k2 < drag_rows(rows, n).len() ==> pair_before(
                #[trigger] drag_rows(rows, n)[k1],
                #[trigger] drag_rows(rows, n)[k2],
            ),
        forall|a: usize, b: usize|
            a < rows && a < b < n ==> #[trigger] drag_rows(rows, n).contains((a, b)),
    decreases rows,
{
    if rows > 0 {
        let r = (rows - 1) as nat;
        lemma_drag_rows_shape(r, n);
        let prev = drag_rows(r, n);
        let row = drag_row(r as int, n);
        let all = drag_rows(rows, n);
        assert(all == prev + row);
        assert forall|k: int| 0 <= k < all.len() implies {
            let p = #[trigger] all[k];
            p.0 < p.1 < n && p.0 < rows
        } by {
            if k < prev.len() {
                assert(all[k] == prev[k]);
            } else {
                assert(all[k] == row[k - prev.len()]);
            }
        }
        assert forall|k1: int, k2: int| 0 <= k1 < k2 < all.len() implies pair_before(
            #[trigger] all[k1],
            #[trigger] all[k2],
        ) by {
            if k2 < prev.len() {
                assert(all[k1] == prev[k1] && all[k2] == prev[k2]);
            } else if k1 < prev.len() {
                assert(all[k1] == prev[k1]);
                assert(all[k2] == row[k2 - prev.len()]);
                assert(prev[k1].0 < r);
            } else {
                assert(all[k1] == row[k1 - prev.len()]);
                assert(all[k2] == row[k2 - prev.len()]);
            }
        }
        assert forall|a: usize, b: usize| a < rows && a < b < n implies #[trigger] all.contains(
            (a, b),
        ) by {
            if a < r {
                assert(prev.contains((a, b)));
                let k = choose|k: int| 0 <= k < prev.len() && prev[k] == (a, b);
                assert(all[k] == prev[k]);
            } else {
                let k = b - a - 1;
                assert(row[k] == (a, b));
                assert(all[prev.len() + k] == row[k]);
            }
        }
    }
}

/// In one step of `n` masses each unordered pair of distinct masses pulls on
/// each other exactly once: the schedule holds exactly the pairs `(i, j)` with
/// `i < j < n`, each of them once, in increasing lexicographic order.
pub proof fn lemma_drag_schedule_each_pair_once(n: nat)
    requires
        n <= usize::MAX,
    ensures
        forall|k: int|
            0 <= k < drag_schedule(n).len() ==> {
                let p = #[trigger] drag_schedule(n)[k];
                p.0 < p.1 < n
            },
        forall|i: usize, j: usize| i < j < n ==> #[trigger] drag_schedule(n).contains((i, j)),
        forall|k1: int, k2: int|
            0 <= k1 < drag_schedule(n).len() && 0 <= k2 < drag_schedule(n).len() && k1 != k2
                ==> #[trigger] drag_schedule(n)[k1] != #[trigger] drag_schedule(n)[k2],
{
    lemma_drag_rows_shape(n, n as int);
    let s = drag_schedule(n);
    assert forall|k1: int, k2: int|
        0 <= k1 < s.len() && 0 <= k2 < s.len() && k1 != k2 implies #[trigger] s[k1]
        != #[trigger] s[k2] by {
        if k1 < k2 {
            assert(pair_before(s[k1], s[k2]));
        } else {
            assert(pair_before(s[k2], s[k1]));
        }
    }
}

/// Twice the number of pairs in the first `rows` rows of the schedule of `n`
/// masses is `rows * (2n - rows - 1)`.
proof fn lemma_drag_rows_len(rows: nat, n: int)
    requires
        rows <= n,
    ensures
        2 * drag_rows(rows, n).len() == rows * (2 * n - rows - 1),
    decreases rows,
{
    if rows > 0 {
        let r = (rows - 1) as nat;
        lemma_drag_rows_len(r, n);
        assert(drag_row(r as int, n).len() == n - r - 1);
        assert(drag_rows(rows, n).len() == drag_rows(r, n).len() + drag_row(r as int, n).len());
        assert(2 * (drag_rows(r, n).len() + (n - r - 1)) == rows * (2 * n - rows - 1))
            by (nonlinear_arith)
            requires
                2 * drag_rows(r, n).len() == r * (2 * n - r - 1),
                rows == r + 1,
        ;
    } else {
        assert(rows * (2 * n - rows - 1) == 0) by (nonlinear_arith)
            requires
                rows == 0,
        ;
    }
}

/// One step of `n` masses applies `n * (n - 1) / 2` pairs of pulls.
pub proof fn lemma_drag_schedule_len(n: nat)
    ensures
        drag_schedule(n).len() == n * (n - 1) / 2,
{
    lemma_drag_rows_len(n, n as int);
    assert(2 * drag_schedule(n).len() == n * (n - 1)) by (nonlinear_arith)
        requires
            2 * drag_schedule(n).len() == n * (2 * n - n - 1),
    ;
    vstd::arithmetic::div_mod::lemma_div_multiples_vanish(drag_schedule(n).len() as int, 2);
}

} // verus!
