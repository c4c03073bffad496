use vstd::prelude::*;
use crate::entity::{Class, Entity};

verus! {

/// Damage that an entity takes; negative damage heals.
#[derive(Clone, Copy, Debug, PartialEq, Eq, Structural)]
pub struct Effect {
    pub damage: i32,
}

/// A burst of decorative particles that a hit calls for.
#[derive(Clone, Copy, Debug, PartialEq, Eq, Structural)]
pub enum Burst {
    /// At the health pickup with this index in the arena.
    Heal { index: usize },
    /// At the cheese.
    Cheese,
}

/// What hits do to the world, summed over the hits of a substep before it is
/// applied once: damage to the player, score, freeze ticks and particle bursts.
#[derive(Debug)]
pub struct StateEffect {
    pub burger_damage: i32,
    pub score: i32,
    pub freeze: u32,
    pub bursts: Vec<Burst>,
}

impl StateEffect {
    /// The effect of no hit at all.
    pub fn none() -> (r: StateEffect)
        ensures
            r.burger_damage == 0,
            r.score == 0,
            r.freeze == 0,
            r.bursts@ == Seq::<Burst>::empty(),
    {
        StateEffect { burger_damage: 0, score: 0, freeze: 0, bursts: Vec::new() }
    }

    /// The effect of reaching the cheese: a fixed score and a burst at the cheese.
    pub fn cheese() -> (r: StateEffect)
        ensures
            r.burger_damage == 0,
            r.score == CHEESE_SCORE,
            r.freeze == 0,
            r.bursts@ == seq![Burst::Cheese],
    {
        let mut bursts = Vec::new();
        bursts.push(Burst::Cheese);
        StateEffect { burger_damage: 0, score: CHEESE_SCORE, freeze: 0, bursts }
    }

    /// Adds `rhs` to this effect: every sum adds up, bursts queue in order.
    pub fn add(&mut self, rhs: StateEffect)
        requires
            old(self).burger_damage + rhs.burger_damage <= i32::MAX,
            old(self).burger_damage + rhs.burger_damage >= i32::MIN,
            old(self).score + rhs.score <= i32::MAX,
            old(self).score + rhs.score >= i32::MIN,
            old(self).freeze + rhs.freeze <= u32::MAX,
        ensures
            final(self).burger_damage == old(self).burger_damage + rhs.burger_damage,
            final(self).score == old(self).score + rhs.score,
            final(self).freeze == old(self).freeze + rhs.freeze,
            final(self).bursts@ == old(self).bursts@ + rhs.bursts@,
    {
        let StateEffect { burger_damage, score, freeze, mut bursts } = rhs;
        self.burger_damage = self.burger_damage + burger_damage;
        self.score = self.score + score;
        self.freeze = self.freeze + freeze;
        self.bursts.append(&mut bursts);
    }
}

/// Score for reaching the cheese.
pub const CHEESE_SCORE: i32 = 100;

/// Damage a health pickup deals to the player (it heals).
pub const HEAL_DAMAGE: i32 = -2;

impl<B> Entity<B> {
    /// Damage the entity takes itself when it hits the player: a health
    /// pickup is used up by one point, every other kind loses all it has.
    pub open spec fn self_damage(self) -> int {
        match self.class {
            Class::HealthPack => 1,
            _ => match self.hp {
                Some(h) => h as int,
                None => 0,
            },
        }
    }

    /// Damage the entity deals to the player when it hits: a health pickup
    /// heals, a damaging kind deals its remaining hit points.
    pub open spec fn hit_damage(self) -> int {
        if self.class == Class::HealthPack {
            HEAL_DAMAGE as int
        } else if self.class.is_damaging() {
            match self.hp {
                Some(h) => h as int,
                None => 0,
            }
        } else {
            0
        }
    }

    /// Freeze ticks that a hit by the entity calls for: as many as the damage
    /// it deals, for a damaging kind.
    pub open spec fn hit_freeze(self) -> int {
        if self.class.is_damaging() {
            match self.hp {
                Some(h) => h as int,
                None => 0,
            }
        } else {
            0
        }
    }

    /// The effect the entity takes on itself when it hits the player.
    pub fn self_effect_on_hit(&self) -> (r: Effect)
        requires
            self.wf(),
        ensures
            r.damage == self.self_damage(),
    {
        match self.class {
            Class::HealthPack => Effect { damage: 1 },
            _ => match self.hp {
                Some(h) => Effect { damage: h },
                None => Effect { damage: 0 },
            },
        }
    }

    /// The effect on the world of the entity hitting the player; `index` is
    /// where the entity stands in its arena.
    pub fn effect_on_hit(&self, index: usize) -> (r: StateEffect)
        requires
            self.wf(),
        ensures
            r.burger_damage == self.hit_damage(),
            r.score == 0,
            r.freeze == self.hit_freeze(),
            r.bursts@ == (if self.class == Class::HealthPack {
                seq![Burst::Heal { index }]
            } else {
                Seq::<Burst>::empty()
            }),
    {
        let mut r = StateEffect::none();
        match self.class {
            Class::HealthPack => {
                r.burger_damage = HEAL_DAMAGE;
                r.bursts.push(Burst::Heal { index });
            },
            Class::Warning { .. } => {},
            _ => {
                if let Some(h) = self.hp {
                    r.burger_damage = h;
                    r.freeze = h as u32;
                }
            },
        }
        r
    }

    /// Takes `effect` on the hit-point pool, if the entity has one.
    pub fn takes_effect(&mut self, effect: &Effect)
        requires
            old(self).hp matches Some(h) ==> i32::MIN <= h - effect.damage <= i32::MAX,
        ensures
            final(self).class == old(self).class,
            final(self).lifespan == old(self).lifespan,
            final(self).body == old(self).body,
            final(self).hp == (match old(self).hp {
                Some(h) => Some((h - effect.damage) as i32),
                None => None,
            }),
    {
        if let Some(h) = self.hp {
            self.hp = Some(h - effect.damage);
        }
    }
}

} // verus!
