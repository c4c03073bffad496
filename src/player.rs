use vstd::prelude::*;
use crate::effect::Effect;

verus! {

/// The player's hit points when full.
pub const MAX_HP: i32 = 8;

/// The player's hit points after a substep whose hits add up to `damage`:
/// the damage is taken at once, and a heal stops at `MAX_HP`.
pub open spec fn applied_hp(hp: int, damage: int) -> int {
    if hp - damage > MAX_HP { MAX_HP as int } else { hp - damage }
}

/// The player's hit points after one substep for each of `damages`, in order.
pub open spec fn hp_after_all(hp: int, damages: Seq<int>) -> int
    decreases damages.len(),
{
    if damages.len() == 0 {
        hp
    } else {
        hp_after_all(applied_hp(hp, damages[0]), damages.drop_first())
    }
}

/// The hit-point side of the player; its motion, invulnerability and dash
/// charge are advanced with the other kinematics.
#[derive(Clone, Copy, Debug, PartialEq, Eq, Structural)]
pub struct Player {
    pub hp: i32,
}

impl Player {
    pub open spec fn wf(self) -> bool {
        self.hp <= MAX_HP
    }

    /// A player at full health.
    pub fn new() -> (r: Player)
        ensures
            r.hp == MAX_HP,
            r.wf(),
    {
        Player { hp: MAX_HP }
    }

    /// Whether the player still has hit points.
    pub fn is_alive(&self) -> (r: bool)
        ensures
            r == (self.hp > 0),
    {
        self.hp > 0
    }

    /// The player's hit points when full.
    pub fn max_hp(&self) -> (r: i32)
        ensures
            r == MAX_HP,
    {
        MAX_HP
    }

    /// How many hit points the player lacks.
    pub fn missing_hp(&self) -> (r: i32)
        requires
            self.wf(),
            self.hp > i32::MIN + MAX_HP,
        ensures
            r == MAX_HP - self.hp,
            r >= 0,
    {
        MAX_HP - self.hp
    }

    /// Takes the damage of `effect` on the hit points, as they are.
    pub fn takes_effect(&mut self, effect: &Effect)
        requires
            i32::MIN <= old(self).hp - effect.damage <= i32::MAX,
        ensures
            final(self).hp == old(self).hp - effect.damage,
    {
        self.hp = self.hp - effect.damage;
    }

    /// Caps the hit points at `MAX_HP`.
    pub fn bound_stats(&mut self)
        ensures
            final(self).hp == if old(self).hp > MAX_HP { MAX_HP } else { old(self).hp },
            final(self).wf(),
    {
        if self.hp > MAX_HP {
            self.hp = MAX_HP;
        }
    }

    /// Applies the summed damage of a substep's hits at once, then caps the
    /// hit points at `MAX_HP`.
    pub fn apply_damage(&mut self, damage: i32)
        requires
            i32::MIN <= old(self).hp - damage <= i32::MAX,
        ensures
            final(self).hp == applied_hp(old(self).hp as int, damage as int),
            final(self).wf(),
    {
        self.takes_effect(&Effect { damage });
        self.bound_stats();
    }
}

/// Whatever the hits of a run of substeps, the player's hit points never
/// rise above the maximum.
pub proof fn lemma_hp_never_exceeds_max(hp: int, damages: Seq<int>)
    requires
        hp <= MAX_HP,
    ensures
        hp_after_all(hp, damages) <= MAX_HP,
    decreases damages.len(),
{
    if damages.len() > 0 {
        lemma_hp_never_exceeds_max(applied_hp(hp, damages[0]), damages.drop_first());
    }
}

/// The damage of a substep is taken in full and once: the hit points fall by
/// exactly the net damage, and a net heal raises them, up to the maximum.
pub proof fn lemma_damage_taken_once(hp: int, damage: int)
    requires
        hp <= MAX_HP,
    ensures
        damage >= 0 ==> applied_hp(hp, damage) == hp - damage,
        damage < 0 ==> hp <= applied_hp(hp, damage) <= MAX_HP,
        applied_hp(hp, damage) >= if hp - damage < MAX_HP { hp - damage } else { MAX_HP as int },
{
}

} // verus!
