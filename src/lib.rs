//! A linear congruential generator that yields integers confined to a
//! caller-chosen half-open range, with every step proved to stay inside it.

use vstd::prelude::*;

verus! {

/// Why a generator could not be built from the given range.
#[derive(Debug, Clone, Copy, PartialEq, Eq, Structural)]
pub enum LcgError {
    /// The range holds no value (`start >= end`).
    EmptyRange,
    /// The width `end - start` does not fit in an `i64`.
    RangeTooLarge,
}

/// Linear congruential generator over the half-open range
/// `[min, min + modulus)`.
pub struct Lcg {
    /// Smallest value the generator yields.
    min: i64,
    /// Number of distinct values the generator can yield (`modulus > 0`).
    modulus: u64,
    /// Factor of the recurrence.
    multiplier: u64,
    /// Addend of the recurrence.
    increment: u64,
    /// Current state; below `modulus` once the generator has stepped.
    seed: u64,
}

/// The recurrence: `(multiplier * seed + increment)` taken modulo 2^64,
/// as wrapping 64-bit arithmetic computes it, and then modulo `modulus`.
pub open spec fn step_seed(modulus: u64, multiplier: u64, increment: u64, seed: u64) -> u64
    recommends
        modulus > 0,
{
    (((multiplier * seed + increment) % 0x1_0000_0000_0000_0000int) % (modulus as int)) as u64
}

impl Lcg {
    /// Smallest value of the output range.
    pub closed spec fn lower(&self) -> i64 {
        self.min
    }

    /// Width of the output range.
    pub closed spec fn modulus(&self) -> u64 {
        self.modulus
    }

    /// Factor of the recurrence.
    pub closed spec fn multiplier(&self) -> u64 {
        self.multiplier
    }

    /// Addend of the recurrence.
    pub closed spec fn increment(&self) -> u64 {
        self.increment
    }

    /// Current state of the recurrence.
    pub closed spec fn state(&self) -> u64 {
        self.seed
    }

    /// The range is non-empty, its width fits in an `i64`, and so does its
    /// exclusive end.
    pub open spec fn well_formed(&self) -> bool {
        &&& 0 < self.modulus() <= i64::MAX
        &&& self.lower() + self.modulus() <= i64::MAX
    }

    /// State after `n` steps from the current one.
    pub open spec fn state_after(&self, n: nat) -> u64
        decreases n,
    {
        if n == 0 {
            self.state()
        } else {
            step_seed(self.modulus(), self.multiplier(), self.increment(), self.state_after((n - 1) as nat))
        }
    }

    /// Value yielded by the `n`-th step from now (`n >= 1`).
    pub open spec fn value_after(&self, n: nat) -> int {
        self.lower() + self.state_after(n)
    }

    /// Builds a generator whose values lie in `range`; `multiplier`,
    /// `increment` and `seed` are kept as given. Fails with `EmptyRange`
    /// when `range` holds no value, else with `RangeTooLarge` when its width
    /// does not fit in an `i64`.
    pub fn new(range: std::ops::Range<i64>, multiplier: u64, increment: u64, seed: u64) -> (r: Result<Self, LcgError>)
        ensures
            range.start >= range.end ==> r == Err::<Self, LcgError>(LcgError::EmptyRange),
            range.start < range.end && range.end - range.start > i64::MAX ==> r == Err::<Self, LcgError>(LcgError::RangeTooLarge),
            range.start < range.end && range.end - range.start <= i64::MAX ==> r is Ok,
            r matches Ok(g) ==> {
                &&& g.well_formed()
                &&& g.lower() == range.start
                &&& g.modulus() == range.end - range.start
                &&& g.lower() + g.modulus() == range.end
                &&& g.multiplier() == multiplier
                &&& g.increment() == increment
                &&& g.state() == seed
            },
    {
        if range.start >= range.end {
            Err(LcgError::EmptyRange)
        } else {
            match range.end.checked_sub(range.start) {
                None => Err(LcgError::RangeTooLarge),
                Some(width) => Ok(Lcg { min: range.start, modulus: width as u64, multiplier, increment, seed }),
            }
        }
    }

    /// Advances the state by one step and returns the new value, which lies
    /// in `[min, min + modulus)`. Never returns `None`.
    pub fn next(&mut self) -> (r: Option<i64>)
        requires
            old(self).well_formed(),
        ensures
            final(self).well_formed(),
            final(self).lower() == old(self).lower(),
            final(self).modulus() == old(self).modulus(),
            final(self).multiplier() == old(self).multiplier(),
            final(self).increment() == old(self).increment(),
            final(self).state() == old(self).state_after(1),
            final(self).state() < final(self).modulus(),
            forall|n: nat| #[trigger] final(self).state_after(n) == old(self).state_after(n + 1),
            r == Some(old(self).value_after(1) as i64),
            old(self).lower() <= old(self).value_after(1) < old(self).lower() + old(self).modulus(),
    {
        let ghost before = *self;
        let mixed = self.multiplier.wrapping_mul(self.seed).wrapping_add(self.increment);
        proof {
            lemma_wrapping_step(self.multiplier, self.seed, self.increment);
            assert(before.state_after(0) == self.seed);
        }
        self.seed = mixed % self.modulus;
        assert(self.seed == before.state_after(1));
        proof {
            assert forall|n: nat| #[trigger] self.state_after(n) == before.state_after(n + 1) by {
                lemma_state_after_shift(before, *self, n);
            }
        }
        Some(self.seed as i64 + self.min)
    }
}

/// A wrapping multiply followed by a wrapping add is the exact `a * s + c`
/// reduced modulo 2^64.
proof fn lemma_wrapping_step(multiplier: u64, seed: u64, increment: u64)
    ensures
        vstd::wrapping::u64_specs::wrapping_add(
            vstd::wrapping::u64_specs::wrapping_mul(multiplier, seed),
            increment,
        ) == (multiplier * seed + increment) % 0x1_0000_0000_0000_0000int,
{
    let p = multiplier as int * seed as int;
    let big = 0x1_0000_0000_0000_0000int;
    vstd::arithmetic::div_mod::lemma_add_mod_noop(p, increment as int, big);
    vstd::arithmetic::div_mod::lemma_mod_twice(increment as int, big);
    vstd::arithmetic::div_mod::lemma_small_mod(increment as nat, big as nat);
}

/// Stepping once and then `n` more times is stepping `n + 1` times.
proof fn lemma_state_after_shift(before: Lcg, after: Lcg, n: nat)
    requires
        after.lower() == before.lower(),
        after.modulus() == before.modulus(),
        after.multiplier() == before.multiplier(),
        after.increment() == before.increment(),
        after.state() == before.state_after(1),
    ensures
        after.state_after(n) == before.state_after(n + 1),
    decreases n,
{
    if n > 0 {
        lemma_state_after_shift(before, after, (n - 1) as nat);
    }
}

/// Every value a well-formed generator yields, however many steps ahead,
/// lies in `[lower, lower + modulus)`, and every state it reaches after at
/// least one step is below `modulus`.
pub proof fn lemma_values_in_range(g: Lcg, n: nat)
    requires
        g.well_formed(),
        n >= 1,
    ensures
        g.state_after(n) < g.modulus(),
        g.lower() <= g.value_after(n) < g.lower() + g.modulus(),
{
}

/// Two generators with the same range, multiplier, increment and state
/// yield the same value at every step.
pub proof fn lemma_deterministic(g1: Lcg, g2: Lcg, n: nat)
    requires
        g1.lower() == g2.lower(),
        g1.modulus() == g2.modulus(),
        g1.multiplier() == g2.multiplier(),
        g1.increment() == g2.increment(),
        g1.state() == g2.state(),
    ensures
        g1.state_after(n) == g2.state_after(n),
        g1.value_after(n) == g2.value_after(n),
    decreases n,
{
    if n > 0 {
        lemma_deterministic(g1, g2, (n - 1) as nat);
    }
}

} // verus!
