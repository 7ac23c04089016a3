//! The health counter itself: a non-negative hit-point value with a
//! floor-at-zero `subtract` and an unclamped `heal`, plus a ghost model of
//! whole histories of such mutations.

use vstd::prelude::*;

verus! {

/// Subtraction clamped at zero: the value a hit leaves behind.
pub open spec fn sat_sub(current: nat, amount: nat) -> nat {
    if current < amount {
        0
    } else {
        (current - amount) as nat
    }
}

/// Alive/Dead, derived from the counter alone: alive exactly while the
/// value is above zero.
pub open spec fn alive(value: nat) -> bool {
    value > 0
}

/// One mutation of the counter, as a ghost value, so that whole histories
/// of calls can be reasoned about as a sequence.
pub enum HealthOp {
    Subtract(nat),
    Heal(nat),
}

/// The value a single mutation leaves behind.
pub open spec fn apply_op(current: nat, op: HealthOp) -> nat {
    match op {
        HealthOp::Subtract(amount) => sat_sub(current, amount),
        HealthOp::Heal(amount) => current + amount,
    }
}

/// The value a whole history of mutations leaves behind, applied in order.
pub open spec fn apply_ops(current: nat, ops: Seq<HealthOp>) -> nat
    decreases ops.len(),
{
    if ops.len() == 0 {
        current
    } else {
        apply_ops(apply_op(current, ops[0]), ops.drop_first())
    }
}

/// A history of `n` unit hits.
pub open spec fn unit_hits(n: nat) -> Seq<HealthOp> {
    Seq::new(n, |i: int| HealthOp::Subtract(1))
}

/// The single source of truth for the current health value.
pub struct HealthComponent {
    value: usize,
}

impl View for HealthComponent {
    type V = nat;

    closed spec fn view(&self) -> nat {
        self.value as nat
    }
}

impl HealthComponent {
    /// Creates a counter holding `initial` hit points.
    pub fn new(initial: usize) -> (health: HealthComponent)
        ensures
            health@ == initial,
    {
        HealthComponent { value: initial }
    }

    /// Returns the current value; no side effects.
    pub fn health(&self) -> (current: usize)
        ensures
            current == self@,
    {
        self.value
    }

    /// Whether the counter is in the Alive state (value above zero).
    pub fn is_alive(&self) -> (r: bool)
        ensures
            r == alive(self@),
    {
        self.value > 0
    }

    /// Lowers the value by `amount`, clamping at zero instead of
    /// underflowing, and returns the new value.
    pub fn subtract(&mut self, amount: usize) -> (new_value: usize)
        ensures
            final(self)@ == sat_sub(old(self)@, amount as nat),
            final(self)@ == apply_op(old(self)@, HealthOp::Subtract(amount as nat)),
            new_value == final(self)@,
    {
        let current = self.value;
        let new = if current < amount {
            0
        } else {
            current - amount
        };
        self.value = new;
        new
    }

    /// Raises the value by exactly `amount` — no ceiling — and returns the
    /// new value.
    pub fn heal(&mut self, amount: usize) -> (new_value: usize)
        requires
            old(self)@ + amount <= usize::MAX,
        ensures
            final(self)@ == old(self)@ + amount,
            final(self)@ == apply_op(old(self)@, HealthOp::Heal(amount as nat)),
            new_value == final(self)@,
    {
        self.value = self.value + amount;
        self.value
    }
}

/// Whatever the starting value and whatever mutations are applied, in any
/// order, the health value never goes below zero.
pub proof fn lemma_health_never_negative(initial: nat, ops: Seq<HealthOp>)
    ensures
        apply_ops(initial, ops) >= 0,
{
}

/// Subtracting zero and healing by zero never change the value.
pub proof fn lemma_zero_is_noop(current: nat)
    ensures
        apply_op(current, HealthOp::Subtract(0)) == current,
        apply_op(current, HealthOp::Heal(0)) == current,
{
}

/// `n` unit hits starting from a value of `n` land exactly on zero: none is
/// lost and none drives the value negative. The counter serialises its
/// mutations, so `n` concurrent unit hits are equivalent to some total
/// order of them, and every such order is this history.
pub proof fn lemma_n_unit_hits_reach_zero(n: nat)
    ensures
        apply_ops(n, unit_hits(n)) == 0,
    decreases n,
{
    if n > 0 {
        assert(unit_hits(n).drop_first() =~= unit_hits((n - 1) as nat));
        lemma_n_unit_hits_reach_zero((n - 1) as nat);
    }
}

} // verus!
