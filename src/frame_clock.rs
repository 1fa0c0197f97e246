use vstd::prelude::*;
use vstd::arithmetic::div_mod::{
    lemma_fundamental_div_mod, lemma_fundamental_div_mod_converse, lemma_hoist_over_denominator, lemma_mod_bound,
    lemma_mod_multiples_vanish,
};

verus! {

/// Fixed simulation updates per second.
pub const UPDATES_PER_SECOND: u64 = 40;

/// Whole fixed steps that `acc + delta` ticks hold.
pub open spec fn updates_for(step: int, acc: int, delta: int) -> int {
    (acc + delta) / step
}

/// Ticks left over once those steps are taken.
pub open spec fn residual_for(step: int, acc: int, delta: int) -> int {
    (acc + delta) % step
}

/// Fixed steps taken over a run of frames with the given deltas, starting
/// from `acc` accumulated ticks.
pub open spec fn updates_over(step: int, acc: int, deltas: Seq<int>) -> int
    decreases deltas.len(),
{
    if deltas.len() == 0 {
        0
    } else {
        updates_for(step, acc, deltas[0]) + updates_over(
            step,
            residual_for(step, acc, deltas[0]),
            deltas.drop_first(),
        )
    }
}

/// Ticks accumulated after a run of frames with the given deltas.
pub open spec fn residual_over(step: int, acc: int, deltas: Seq<int>) -> int
    decreases deltas.len(),
{
    if deltas.len() == 0 {
        acc
    } else {
        residual_over(step, residual_for(step, acc, deltas[0]), deltas.drop_first())
    }
}

pub open spec fn sum(deltas: Seq<int>) -> int
    decreases deltas.len(),
{
    if deltas.len() == 0 {
        0
    } else {
        deltas[0] + sum(deltas.drop_first())
    }
}

/// Over any run of frames, the number of fixed updates is exactly the
/// number of whole steps in the time accumulated in all, and what is left
/// over is less than one step; frame rate does not change the simulation.
pub proof fn lemma_fixed_timestep(step: int, acc: int, deltas: Seq<int>)
    requires
        0 < step,
        0 <= acc < step,
        forall|i: int| 0 <= i < deltas.len() ==> 0 <= #[trigger] deltas[i],
    ensures
        updates_over(step, acc, deltas) == (acc + sum(deltas)) / step,
        residual_over(step, acc, deltas) == (acc + sum(deltas)) % step,
        0 <= residual_over(step, acc, deltas) < step,
    decreases deltas.len(),
{
    if deltas.len() == 0 {
        lemma_fundamental_div_mod_converse(acc, step, 0, acc);
    } else {
        let rest = deltas.drop_first();
        let x = acc + deltas[0];
        let q = x / step;
        let r = x % step;
        lemma_mod_bound(x, step);
        assert forall|i: int| 0 <= i < rest.len() implies 0 <= #[trigger] rest[i] by {
            assert(rest[i] == deltas[i + 1]);
        }
        lemma_fixed_timestep(step, r, rest);
        lemma_fundamental_div_mod(x, step);
        lemma_hoist_over_denominator(r + sum(rest), q, step as nat);
        lemma_mod_multiples_vanish(q, r + sum(rest), step);
        assert(x + sum(rest) == step * q + (r + sum(rest))) by (nonlinear_arith)
            requires
                x == step * q + r,
        ;
        assert(r + sum(rest) + q * step == step * q + (r + sum(rest))) by (nonlinear_arith);
    }
}

/// Accumulates wall-clock ticks between frames and hands them out as whole
/// fixed simulation steps.
pub struct FrameClock {
    frequency: u64,
    fixed_step: u64,
    acc: u64,
}

impl FrameClock {
    pub closed spec fn frequency_spec(&self) -> int {
        self.frequency as int
    }

    pub closed spec fn step_spec(&self) -> int {
        self.fixed_step as int
    }

    pub closed spec fn acc_spec(&self) -> int {
        self.acc as int
    }

    #[verifier::type_invariant]
    spec fn less_than_a_step(self) -> bool {
        self.acc < self.fixed_step
    }

    /// Less than one step is ever left accumulated.
    pub open spec fn wf(&self) -> bool {
        0 <= self.acc_spec() < self.step_spec()
    }

    /// A clock for a counter of `frequency` ticks per second, whose fixed step
    /// is a fortieth of a second.
    pub fn new(frequency: u64) -> (r: Self)
        requires
            frequency >= UPDATES_PER_SECOND,
        ensures
            r.frequency_spec() == frequency,
            r.step_spec() == frequency / UPDATES_PER_SECOND,
            r.acc_spec() == 0,
            r.wf(),
    {
        FrameClock { frequency, fixed_step: frequency / UPDATES_PER_SECOND, acc: 0 }
    }

    pub fn frequency(&self) -> (r: u64)
        ensures
            r == self.frequency_spec(),
    {
        self.frequency
    }

    /// Ticks in one fixed step.
    pub fn fixed_step(&self) -> (r: u64)
        ensures
            r == self.step_spec(),
    {
        self.fixed_step
    }

    /// Ticks accumulated towards the next step.
    pub fn accumulated(&self) -> (r: u64)
        ensures
            r == self.acc_spec(),
    {
        self.acc
    }

    /// Adds the `delta` ticks of one frame and returns how many fixed
    /// updates to run now; the remainder is kept for later frames.
    pub fn advance(&mut self, delta: u64) -> (updates: u64)
        requires
            old(self).acc_spec() + delta <= u64::MAX,
        ensures
            final(self).wf(),
            final(self).frequency_spec() == old(self).frequency_spec(),
            final(self).step_spec() == old(self).step_spec(),
            updates == updates_for(old(self).step_spec(), old(self).acc_spec(), delta as int),
            final(self).acc_spec() == residual_for(old(self).step_spec(), old(self).acc_spec(), delta as int),
    {
        proof {
            use_type_invariant(&*self);
        }
        let step = self.fixed_step;
        let total = self.acc + delta;
        let mut acc = total;
        let mut updates: u64 = 0;
        while acc >= step
            invariant
                step > 0,
                total == acc + updates * step,
                total <= u64::MAX,
            decreases acc,
        {
            proof {
                assert(updates * step + step == (updates + 1) * step) by (nonlinear_arith);
                assert(updates + 1 <= (updates + 1) * step) by (nonlinear_arith)
                    requires
                        step >= 1,
                ;
            }
            acc = acc - step;
            updates = updates + 1;
        }
        proof {
            lemma_fundamental_div_mod_converse(total as int, step as int, updates as int, acc as int);
        }
        *self = FrameClock { frequency: self.frequency, fixed_step: step, acc };
        updates
    }
}

} // verus!
