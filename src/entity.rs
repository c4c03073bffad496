use vstd::prelude::*;
use crate::spawning::Dir;

verus! {

/// The kinds of entity in the arena.
#[derive(Clone, Copy, Debug, PartialEq, Eq, Structural)]
pub enum Class {
    /// Small projectile.
    Bullet,
    /// Heavy, slow projectile.
    Slug,
    /// Fast, thin beam.
    Laser,
    /// Pickup that heals the player.
    HealthPack,
    /// Shell that bursts into shrapnel when it expires.
    Flak,
    /// Shrapnel of a flak shell.
    FlakChild,
    /// Countdown marker for a laser along `dir`; it shows after `delay` ticks.
    Warning { dir: Dir, delay: u32 },
}

/// Largest spawn delay, in ticks, that the lifespans are sized for.
pub const MAX_DELAY: u32 = 1_000_000;

impl Class {
    /// Radius of the hit-circle; `None` for a kind that never collides.
    pub open spec fn radius_spec(self) -> Option<nat> {
        match self {
            Class::Bullet => Some(3),
            Class::Slug => Some(10),
            Class::Laser => Some(3),
            Class::HealthPack => Some(5),
            Class::Flak => Some(7),
            Class::FlakChild => Some(4),
            Class::Warning { .. } => None,
        }
    }

    /// Hit points at spawn; `None` for a kind that has no hit-point pool.
    pub open spec fn starting_hp_spec(self) -> Option<i32> {
        match self {
            Class::Bullet => Some(3i32),
            Class::Slug => Some(7i32),
            Class::Laser => Some(5i32),
            Class::HealthPack => Some(1i32),
            Class::Flak => Some(5i32),
            Class::FlakChild => Some(2i32),
            Class::Warning { .. } => None,
        }
    }

    /// Ticks an entity of this kind lives, before any extra delay.
    pub open spec fn lifespan_spec(self) -> nat {
        match self {
            Class::Bullet => 750,
            Class::Slug => 1500,
            Class::Laser => 500,
            Class::HealthPack => 500,
            Class::Flak => 200,
            Class::FlakChild => 300,
            Class::Warning { delay, .. } => (60 + delay) as nat,
        }
    }

    /// Whether a hit by this kind damages the player.
    pub open spec fn is_damaging(self) -> bool {
        match self {
            Class::HealthPack | Class::Warning { .. } => false,
            _ => true,
        }
    }

    pub open spec fn wf(self) -> bool {
        match self {
            Class::Warning { delay, .. } => delay <= MAX_DELAY,
            _ => true,
        }
    }

    /// Radius of the hit-circle; `None` for a kind that never collides.
    pub fn radius(&self) -> (r: Option<u32>)
        ensures
            r matches Some(v) ==> self.radius_spec() == Some(v as nat),
            r is None <==> self.radius_spec() is None,
    {
        match self {
            Class::Bullet => Some(3),
            Class::Slug => Some(10),
            Class::Laser => Some(3),
            Class::HealthPack => Some(5),
            Class::Flak => Some(7),
            Class::FlakChild => Some(4),
            Class::Warning { .. } => None,
        }
    }

    /// Hit points at spawn; `None` for a kind that has no hit-point pool.
    pub fn starting_hp(&self) -> (r: Option<i32>)
        ensures
            r == self.starting_hp_spec(),
    {
        match self {
            Class::Bullet => Some(3),
            Class::Slug => Some(7),
            Class::Laser => Some(5),
            Class::HealthPack => Some(1),
            Class::Flak => Some(5),
            Class::FlakChild => Some(2),
            Class::Warning { .. } => None,
        }
    }

    /// Ticks an entity of this kind lives, before any extra delay.
    pub fn lifespan(&self) -> (r: u32)
        requires
            self.wf(),
        ensures
            r == self.lifespan_spec(),
    {
        match self {
            Class::Bullet => 750,
            Class::Slug => 1500,
            Class::Laser => 500,
            Class::HealthPack => 500,
            Class::Flak => 200,
            Class::FlakChild => 300,
            Class::Warning { delay, .. } => 60 + *delay,
        }
    }
}

/// An entity of the arena: its kind, its hit-point pool and its lifespan in
/// ticks. `body` holds its kinematics (position, velocity, acceleration, age),
/// which the simulation advances; nothing here reads it.
#[derive(Clone, Copy, Debug)]
pub struct Entity<B> {
    pub class: Class,
    pub hp: Option<i32>,
    pub lifespan: u32,
    pub body: B,
}

impl<B> Entity<B> {
    /// Well formed: a hit-point pool exactly for the kinds that have one,
    /// never above what the kind starts with.
    pub open spec fn wf(self) -> bool {
        &&& self.class.wf()
        &&& match self.class.starting_hp_spec() {
            Some(max) => self.hp matches Some(h) && 0 <= h <= max,
            None => self.hp is None,
        }
    }

    /// Still in play as far as its hit points go.
    pub open spec fn is_alive_spec(self) -> bool {
        match self.hp {
            Some(h) => h > 0,
            None => true,
        }
    }

    /// A new entity of kind `class`, living `extra_life` ticks more than its kind.
    pub fn new(class: Class, extra_life: u32, body: B) -> (r: Entity<B>)
        requires
            class.wf(),
            extra_life <= MAX_DELAY,
        ensures
            r.wf(),
            r.class == class,
            r.hp == class.starting_hp_spec(),
            r.lifespan == class.lifespan_spec() + extra_life,
            r.body == body,
    {
        let life = class.lifespan();
        Entity { class, hp: class.starting_hp(), lifespan: life + extra_life, body }
    }

    /// Still in play as far as its hit points go.
    pub fn is_alive(&self) -> (r: bool)
        ensures
            r == self.is_alive_spec(),
    {
        match self.hp {
            Some(h) => h > 0,
            None => true,
        }
    }
}

} // verus!
