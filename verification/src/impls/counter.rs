//! A counter that climbs in half steps up to a bound and then starts again
//! from one half. The daemon ticks it once per popularity package (about
//! two a minute) and logs the popularity whenever the counter stands at its
//! bound, so one record is written every `ubound` minutes.
//!
//! All values are kept in half steps, as integers: the value `k` stands for
//! `k / 2`.
use vstd::prelude::*;

verus! {

/// The value after one tick from `count`, with `bound` the bound (both in
/// half steps): one half step more, or one half step again past the bound.
pub open spec fn step(count: int, bound: int) -> int {
    if count + 1 > bound {
        1
    } else {
        count + 1
    }
}

/// The value of a counter made with bound `ubound` after `n` ticks.
pub open spec fn after_ticks(ubound: nat, n: nat) -> int
    decreases n,
{
    if n == 0 {
        2 * ubound - 1
    } else {
        step(after_ticks(ubound, (n - 1) as nat), 2 * ubound as int)
    }
}

pub struct LoopCounter {
    count: i64,
    ubound: u64,
    ticks: Ghost<nat>,
}

impl LoopCounter {
    /// The current value, in half steps.
    pub closed spec fn count(&self) -> int {
        self.count as int
    }

    /// The bound, in half steps.
    pub closed spec fn bound(&self) -> int {
        self.ubound as int
    }

    /// The bound, in whole steps, that the counter was made with.
    pub closed spec fn whole_bound(&self) -> nat {
        (self.ubound / 2) as nat
    }

    /// The number of ticks since the counter was made.
    pub closed spec fn ticks(&self) -> nat {
        self.ticks@
    }

    #[verifier::type_invariant]
    closed spec fn inv(&self) -> bool {
        &&& self.ubound <= 2 * (u32::MAX as int)
        &&& self.ubound % 2 == 0
        &&& -1 <= self.count <= self.ubound + 1
        &&& self.ubound >= 2 ==> 1 <= self.count
        &&& self.count == after_ticks(self.whole_bound(), self.ticks@)
    }

    /// A counter whose bound is `ubound` whole steps; its first tick reaches
    /// the bound.
    pub fn new(ubound: u32) -> (c: Self)
        ensures
            c.bound() == 2 * ubound,
            c.whole_bound() == ubound,
            c.count() == 2 * ubound - 1,
            c.ticks() == 0,
    {
        LoopCounter {
            count: 2 * (ubound as i64) - 1,
            ubound: 2 * (ubound as u64),
            ticks: Ghost(0),
        }
    }

    /// The bound, in half steps.
    pub fn bound_halves(&self) -> (r: u64)
        ensures
            r == self.bound(),
    {
        self.ubound
    }

    /// Whether the next tick reaches the bound.
    pub fn fires_next(&self) -> (r: bool)
        ensures
            r == (step(self.count(), self.bound()) == self.bound()),
    {
        proof {
            use_type_invariant(self);
        }
        let next = self.count + 1;
        if next > self.ubound as i64 {
            1 == self.ubound
        } else {
            next as u64 == self.ubound
        }
    }

    /// One tick; returns the new value, in half steps: the value after as
    /// many ticks as have been made since the counter was made, which is at
    /// least one half step and at most the bound (at most one half step for
    /// a bound of zero).
    pub fn next(&mut self) -> (r: u64)
        ensures
            final(self).count() == step(old(self).count(), old(self).bound()),
            final(self).bound() == old(self).bound(),
            final(self).whole_bound() == old(self).whole_bound(),
            final(self).ticks() == old(self).ticks() + 1,
            r == final(self).count(),
            r == after_ticks(final(self).whole_bound(), final(self).ticks()),
            old(self).bound() >= 2 ==> 1 <= r <= old(self).bound(),
            old(self).bound() == 0 ==> r <= 1,
    {
        proof {
            use_type_invariant(&*self);
        }
        let next = self.count + 1;
        let count = if next > self.ubound as i64 {
            1
        } else {
            next
        };
        *self = LoopCounter { count, ubound: self.ubound, ticks: Ghost(self.ticks@ + 1) };
        count as u64
    }
}

/// A counter made with bound `ubound >= 1` stands at its bound exactly on
/// ticks 1, 1 + 2·ubound, 1 + 4·ubound, ...; between them it climbs through
/// 1, 2, ..., 2·ubound - 1.
pub proof fn lemma_counter_period(ubound: nat, n: nat)
    requires
        ubound >= 1,
        n >= 1,
    ensures
        after_ticks(ubound, n) == if (n - 1) % (2 * ubound as int) == 0 {
            2 * ubound as int
        } else {
            (n - 1) % (2 * ubound as int)
        },
    decreases n,
{
    let m: int = 2 * ubound as int;
    reveal_with_fuel(after_ticks, 2);
    if n == 1 {
        assert(0int % m == 0) by (nonlinear_arith)
            requires
                m >= 2,
        ;
    } else {
        lemma_counter_period(ubound, (n - 1) as nat);
        let r: int = (n - 2) % m;
        let q: int = (n - 2) / m;
        assert(n - 2 == q * m + r && 0 <= r < m) by (nonlinear_arith)
            requires
                m >= 2,
                n >= 2,
                r == (n - 2) % m,
                q == (n - 2) / m,
        ;
        assert(after_ticks(ubound, (n - 1) as nat) == if r == 0 { m } else { r });
        if r + 1 < m {
            assert((n - 1) % m == r + 1) by (nonlinear_arith)
                requires
                    n - 1 == q * m + (r + 1),
                    0 <= r + 1 < m,
            ;
        } else {
            assert((n - 1) % m == 0) by (nonlinear_arith)
                requires
                    n - 2 == q * m + r,
                    r + 1 == m,
                    m >= 2,
            ;
        }
    }
}

/// A counter made with bound 0 stands at its bound on the first tick only,
/// and at one half step ever after.
pub proof fn lemma_counter_zero_bound(n: nat)
    ensures
        n == 1 ==> after_ticks(0, n) == 0,
        n >= 2 ==> after_ticks(0, n) == 1,
    decreases n,
{
    reveal_with_fuel(after_ticks, 2);
    if n >= 2 {
        lemma_counter_zero_bound((n - 1) as nat);
    }
}

} // verus!
