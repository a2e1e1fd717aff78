//! Health and shield tracking for one spawned player.
//!
//! Quantities that are fractional by nature are kept in fixed point so that
//! every operation is exact: elapsed time in microseconds, the recharge rate
//! in thousandths of a shield point per second, and the recharge accumulator
//! in billionths of a shield point.

use vstd::prelude::*;

verus! {

/// Accumulator units that make up one whole shield point: one microsecond at
/// a rate of one thousandth of a point per second adds one unit.
pub const ACCUMULATOR_PER_SHIELD: u64 = 1_000_000_000;

/// The mathematical state of a [`HealthComponent`].
pub struct HealthView {
    pub max_health: int,
    pub health: int,
    pub max_shields: int,
    pub shields: int,
    /// Thousandths of a shield point regained per second.
    pub recharge_rate: int,
    /// Regained but not yet applied shields, in billionths of a point.
    pub accumulator: int,
}

impl HealthView {
    /// Health and shields lie between zero and their maxima; rate and
    /// accumulator are not negative.
    pub open spec fn wf(self) -> bool {
        &&& 0 <= self.health <= self.max_health
        &&& 0 <= self.shields <= self.max_shields
        &&& 0 <= self.recharge_rate
        &&& 0 <= self.accumulator
    }

    /// The state of a player that has just been spawned.
    pub open spec fn fresh(health: int, shields: int, recharge_rate: int) -> HealthView {
        HealthView {
            max_health: health,
            health,
            max_shields: shields,
            shields,
            recharge_rate,
            accumulator: 0,
        }
    }

    pub open spec fn is_dead(self) -> bool {
        self.health == 0
    }

    /// The state after `amount` points of damage: shields absorb what they
    /// can, only the excess reaches health, and neither goes below zero.
    pub open spec fn damaged(self, amount: int) -> HealthView {
        if amount <= self.shields {
            HealthView { shields: self.shields - amount, ..self }
        } else {
            let excess = amount - self.shields;
            HealthView {
                shields: 0,
                health: if excess <= self.health {
                    self.health - excess
                } else {
                    0
                },
                ..self
            }
        }
    }

    /// The state after a whole sequence of hits, applied first to last.
    pub open spec fn damaged_by_all(self, amounts: Seq<int>) -> HealthView
        decreases amounts.len(),
    {
        if amounts.len() == 0 {
            self
        } else {
            self.damaged_by_all(amounts.drop_last()).damaged(amounts.last())
        }
    }

    /// What the accumulator holds once `elapsed_micros` microseconds of
    /// recharge have been added and before any of it is turned into shields.
    pub open spec fn accumulated(self, elapsed_micros: int) -> int {
        self.accumulator + elapsed_micros * self.recharge_rate
    }

    /// Shield points that `elapsed_micros` microseconds of recharge restore:
    /// the whole points in the accumulator, as far as there is room below
    /// the maximum.
    pub open spec fn shields_gained(self, elapsed_micros: int) -> int {
        let whole = self.accumulated(elapsed_micros) / (ACCUMULATOR_PER_SHIELD as int);
        let room = self.max_shields - self.shields;
        if whole <= room {
            whole
        } else {
            room
        }
    }

    /// The state after `elapsed_micros` microseconds of shield recharge. A
    /// dead player does not recharge. For a living one the elapsed time is
    /// added to the accumulator at the recharge rate, and each whole point
    /// that fits below the maximum moves from the accumulator to the shields.
    pub open spec fn recharged(self, elapsed_micros: int) -> HealthView {
        if self.is_dead() {
            self
        } else {
            let gained = self.shields_gained(elapsed_micros);
            HealthView {
                shields: self.shields + gained,
                accumulator: self.accumulated(elapsed_micros) - gained * (ACCUMULATOR_PER_SHIELD
                    as int),
                ..self
            }
        }
    }

    /// Whether the accumulator of the running program can hold another
    /// `elapsed_micros` microseconds of recharge.
    pub open spec fn can_accumulate(self, elapsed_micros: int) -> bool {
        self.is_dead() || self.accumulated(elapsed_micros) <= u64::MAX
    }
}

/// Damage leaves a valid state valid: health and shields stay at or above
/// zero and at or below their maxima, whatever the amount.
pub proof fn lemma_damage_keeps_bounds(state: HealthView, amount: int)
    requires
        state.wf(),
        0 <= amount,
    ensures
        state.damaged(amount).wf(),
        0 <= state.damaged(amount).health,
        0 <= state.damaged(amount).shields,
{
}

/// Shields take damage before health does: a hit that the shields can
/// absorb leaves health untouched, and a larger one empties the shields and
/// takes the excess from health, which stops at zero.
pub proof fn lemma_damage_hits_shields_first(state: HealthView, amount: int)
    requires
        state.wf(),
        0 <= amount,
    ensures
        amount <= state.shields ==> {
            &&& state.damaged(amount).shields == state.shields - amount
            &&& state.damaged(amount).health == state.health
        },
        amount > state.shields ==> {
            &&& state.damaged(amount).shields == 0
            &&& state.damaged(amount).health == if state.health - (amount - state.shields) >= 0 {
                state.health - (amount - state.shields)
            } else {
                0
            }
        },
{
}

/// However many hits a player takes and however large they are, health and
/// shields are never negative.
pub proof fn lemma_damage_sequence_keeps_bounds(state: HealthView, amounts: Seq<int>)
    requires
        state.wf(),
        forall|i: int| 0 <= i < amounts.len() ==> 0 <= amounts[i],
    ensures
        state.damaged_by_all(amounts).wf(),
        0 <= state.damaged_by_all(amounts).health,
        0 <= state.damaged_by_all(amounts).shields,
    decreases amounts.len(),
{
    if amounts.len() > 0 {
        lemma_damage_sequence_keeps_bounds(state, amounts.drop_last());
        lemma_damage_keeps_bounds(state.damaged_by_all(amounts.drop_last()), amounts.last());
    }
}

/// Death is final: a dead player stays dead under any further damage, and
/// recharge leaves it exactly as it is.
pub proof fn lemma_dead_stays_dead(state: HealthView, amount: int, elapsed_micros: int)
    requires
        state.wf(),
        state.is_dead(),
        0 <= amount,
    ensures
        state.damaged(amount).is_dead(),
        state.recharged(elapsed_micros) == state,
{
}

/// The accumulator never runs backwards: time adds to it, and no more is
/// taken out than whole points are in it.
pub proof fn lemma_accumulated_bounds(state: HealthView, elapsed_micros: int)
    requires
        state.wf(),
        0 <= elapsed_micros,
    ensures
        state.accumulator <= state.accumulated(elapsed_micros),
        0 <= state.shields_gained(elapsed_micros) <= state.max_shields - state.shields,
        state.shields_gained(elapsed_micros) * (ACCUMULATOR_PER_SHIELD as int)
            <= state.accumulated(elapsed_micros),
{
    assert(0 <= elapsed_micros * state.recharge_rate) by (nonlinear_arith)
        requires
            0 <= elapsed_micros,
            0 <= state.recharge_rate,
    ;
}

/// Recharge leaves a valid state valid and never lowers the shields: they
/// end between their old value and their maximum.
pub proof fn lemma_recharge_keeps_bounds(state: HealthView, elapsed_micros: int)
    requires
        state.wf(),
        0 <= elapsed_micros,
    ensures
        state.recharged(elapsed_micros).wf(),
        state.shields <= state.recharged(elapsed_micros).shields <= state.max_shields,
        0 <= state.recharged(elapsed_micros).accumulator,
{
    lemma_accumulated_bounds(state, elapsed_micros);
}

/// Recharge loses nothing: what the elapsed time adds at the recharge rate
/// is found again in the shields and the accumulator together.
pub proof fn lemma_recharge_conserves(state: HealthView, elapsed_micros: int)
    requires
        state.wf(),
        0 <= elapsed_micros,
        !state.is_dead(),
    ensures
        state.recharged(elapsed_micros).shields * (ACCUMULATOR_PER_SHIELD as int)
            + state.recharged(elapsed_micros).accumulator == state.shields * (
        ACCUMULATOR_PER_SHIELD as int) + state.accumulator + elapsed_micros * state.recharge_rate,
{
}

/// More time never recharges less: both the accumulated amount and the
/// shields after recharge grow with the elapsed time.
pub proof fn lemma_recharge_monotonic(state: HealthView, shorter_micros: int, longer_micros: int)
    requires
        state.wf(),
        0 <= shorter_micros <= longer_micros,
    ensures
        state.accumulated(shorter_micros) <= state.accumulated(longer_micros),
        state.recharged(shorter_micros).shields <= state.recharged(longer_micros).shields,
{
    assert(shorter_micros * state.recharge_rate <= longer_micros * state.recharge_rate)
        by (nonlinear_arith)
        requires
            shorter_micros <= longer_micros,
            0 <= state.recharge_rate,
    ;
}

/// Recharging in two steps is recharging once for the whole time: how the
/// elapsed time is cut into ticks makes no difference.
pub proof fn lemma_recharge_splits(state: HealthView, first_micros: int, second_micros: int)
    requires
        state.wf(),
        0 <= first_micros,
        0 <= second_micros,
    ensures
        state.recharged(first_micros).recharged(second_micros) == state.recharged(
            first_micros + second_micros,
        ),
{
    lemma_accumulated_bounds(state, first_micros);
    lemma_recharge_keeps_bounds(state, first_micros);
    lemma_accumulated_bounds(state.recharged(first_micros), second_micros);
    assert((first_micros + second_micros) * state.recharge_rate == first_micros
        * state.recharge_rate + second_micros * state.recharge_rate) by (nonlinear_arith);
    assert(0 <= first_micros * state.recharge_rate) by (nonlinear_arith)
        requires
            0 <= first_micros,
            0 <= state.recharge_rate,
    ;
    assert(0 <= second_micros * state.recharge_rate) by (nonlinear_arith)
        requires
            0 <= second_micros,
            0 <= state.recharge_rate,
    ;
}

/// Runtime health and shields of one player. The maxima and the recharge
/// rate are fixed when the component is made.
#[derive(Clone, Copy, Debug)]
pub struct HealthComponent {
    max_health: usize,
    health: usize,
    max_shields: usize,
    shields: usize,
    shields_recharge_rate: u32,
    shields_recharge_accumulator: u64,
}

impl View for HealthComponent {
    type V = HealthView;

    closed spec fn view(&self) -> HealthView {
        HealthView {
            max_health: self.max_health as int,
            health: self.health as int,
            max_shields: self.max_shields as int,
            shields: self.shields as int,
            recharge_rate: self.shields_recharge_rate as int,
            accumulator: self.shields_recharge_accumulator as int,
        }
    }
}

impl HealthComponent {
    #[verifier::type_invariant]
    spec fn within_maxima(self) -> bool {
        self.health <= self.max_health && self.shields <= self.max_shields
    }

    /// The component that [`new`](Self::new) makes.
    pub closed spec fn spec_new(health: usize, shields: usize, shields_recharge_rate: u32) -> Self {
        HealthComponent {
            max_health: health,
            health,
            max_shields: shields,
            shields,
            shields_recharge_rate,
            shields_recharge_accumulator: 0,
        }
    }

    /// A new component is at full health and full shields, and its
    /// accumulator is empty.
    pub proof fn lemma_new_is_fresh(health: usize, shields: usize, shields_recharge_rate: u32)
        ensures
            Self::spec_new(health, shields, shields_recharge_rate)@ == HealthView::fresh(
                health as int,
                shields as int,
                shields_recharge_rate as int,
            ),
            Self::spec_new(health, shields, shields_recharge_rate)@.wf(),
    {
    }

    /// A component at full health and full shields with an empty
    /// accumulator. The rate is in thousandths of a shield point per second.
    #[verifier::when_used_as_spec(spec_new)]
    pub fn new(health: usize, shields: usize, shields_recharge_rate: u32) -> (component: Self)
        ensures
            component == Self::spec_new(health, shields, shields_recharge_rate),
            component@ == HealthView::fresh(
                health as int,
                shields as int,
                shields_recharge_rate as int,
            ),
            component@.wf(),
    {
        HealthComponent {
            max_health: health,
            health,
            max_shields: shields,
            shields,
            shields_recharge_rate,
            shields_recharge_accumulator: 0,
        }
    }

    /// Takes `amount` points of damage. The shields absorb what they can;
    /// only the excess reaches health, and neither goes below zero.
    pub fn apply_damage(&mut self, amount: usize)
        ensures
            final(self)@ == old(self)@.damaged(amount as int),
            final(self)@.wf(),
            amount <= old(self)@.shields ==> {
                &&& final(self)@.shields == old(self)@.shields - amount
                &&& final(self)@.health == old(self)@.health
            },
            amount > old(self)@.shields ==> {
                &&& final(self)@.shields == 0
                &&& final(self)@.health == if old(self)@.health - (amount - old(self)@.shields)
                    >= 0 {
                    old(self)@.health - (amount - old(self)@.shields)
                } else {
                    0
                }
            },
    {
        proof {
            use_type_invariant(&*self);
        }
        if amount <= self.shields {
            self.shields = self.shields - amount;
        } else {
            let excess: usize = amount - self.shields;
            self.shields = 0;
            self.health = if excess <= self.health {
                self.health - excess
            } else {
                0
            };
        }
    }

    /// Recharges shields for `elapsed_micros` microseconds: the time is added
    /// to the accumulator at the recharge rate, and every whole point in it
    /// goes to the shields as long as they are below their maximum. A dead
    /// player is left as it is: once health is gone, shields do not come
    /// back.
    ///
    /// The accumulator is a `u64` and has to be able to hold the added time;
    /// [`can_recharge`](Self::can_recharge) tells whether it can.
    pub fn recharge_shields(&mut self, elapsed_micros: u32)
        requires
            old(self)@.can_accumulate(elapsed_micros as int),
        ensures
            final(self)@ == old(self)@.recharged(elapsed_micros as int),
            final(self)@.wf(),
            old(self)@.shields <= final(self)@.shields <= final(self)@.max_shields,
    {
        proof {
            use_type_invariant(&*self);
        }
        if self.health == 0 {
            return ;
        }
        assert(elapsed_micros * self.shields_recharge_rate <= 0xffff_ffff * 0xffff_ffff)
            by (nonlinear_arith)
            requires
                0 <= elapsed_micros <= 0xffff_ffff,
                0 <= self.shields_recharge_rate <= 0xffff_ffff,
        ;
        let added: u64 = (elapsed_micros as u64) * (self.shields_recharge_rate as u64);
        let total: u64 = self.shields_recharge_accumulator + added;
        let whole: u64 = total / ACCUMULATOR_PER_SHIELD;
        let room: usize = self.max_shields - self.shields;
        let gained: u64 = if whole <= room as u64 {
            whole
        } else {
            room as u64
        };
        assert(gained * ACCUMULATOR_PER_SHIELD <= total) by (nonlinear_arith)
            requires
                0 <= gained <= total / ACCUMULATOR_PER_SHIELD,
                ACCUMULATOR_PER_SHIELD == 1_000_000_000,
        ;
        self.shields = self.shields + gained as usize;
        self.shields_recharge_accumulator = total - gained * ACCUMULATOR_PER_SHIELD;
    }

    /// Whether health has run out.
    pub fn is_dead(&self) -> (dead: bool)
        ensures
            dead == self@.is_dead(),
            dead <==> self@.health == 0,
    {
        self.health == 0
    }

    /// Whether [`recharge_shields`](Self::recharge_shields) may be called
    /// with `elapsed_micros`.
    pub fn can_recharge(&self, elapsed_micros: u32) -> (fits: bool)
        ensures
            fits == self@.can_accumulate(elapsed_micros as int),
    {
        if self.health == 0 {
            return true;
        }
        assert(elapsed_micros * self.shields_recharge_rate <= 0xffff_ffff * 0xffff_ffff)
            by (nonlinear_arith)
            requires
                0 <= elapsed_micros <= 0xffff_ffff,
                0 <= self.shields_recharge_rate <= 0xffff_ffff,
        ;
        let added: u64 = (elapsed_micros as u64) * (self.shields_recharge_rate as u64);
        added <= u64::MAX - self.shields_recharge_accumulator
    }

    pub fn health(&self) -> (health: usize)
        ensures
            health == self@.health,
            self@.wf(),
    {
        proof {
            use_type_invariant(self);
        }
        self.health
    }

    pub fn max_health(&self) -> (max_health: usize)
        ensures
            max_health == self@.max_health,
    {
        self.max_health
    }

    pub fn shields(&self) -> (shields: usize)
        ensures
            shields == self@.shields,
            self@.wf(),
    {
        proof {
            use_type_invariant(self);
        }
        self.shields
    }

    pub fn max_shields(&self) -> (max_shields: usize)
        ensures
            max_shields == self@.max_shields,
    {
        self.max_shields
    }

    /// Thousandths of a shield point regained per second.
    pub fn shields_recharge_rate(&self) -> (rate: u32)
        ensures
            rate == self@.recharge_rate,
    {
        self.shields_recharge_rate
    }

    /// Regained but not yet applied shields, in billionths of a point.
    pub fn shields_recharge_accumulator(&self) -> (accumulator: u64)
        ensures
            accumulator == self@.accumulator,
    {
        self.shields_recharge_accumulator
    }
}

} // verus!
