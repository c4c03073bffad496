use vstd::prelude::*;
use crate::entity::{Class, Entity};
use crate::effect::{Burst, StateEffect};

verus! {

/// Largest arena that the hit resolution is sized for.
pub const MAX_ENTITIES: usize = 100_000_000;

/// Whether the entity takes part in a hit, given that its hit-circle overlaps
/// the player's (`hit`): health pickups always do, damaging kinds only while
/// the player is targetable, and an entity out of hit points never does.
pub open spec fn struck<B>(e: Entity<B>, hit: bool, targetable: bool) -> bool {
    &&& hit
    &&& e.is_alive_spec()
    &&& (e.class == Class::HealthPack || (e.class.is_damaging() && targetable))
}

/// The entity after it took its own effect of a hit.
pub open spec fn after_hit<B>(e: Entity<B>) -> Entity<B> {
    Entity {
        hp: match e.hp {
            Some(h) => Some((h - e.self_damage()) as i32),
            None => None,
        },
        ..e
    }
}

/// Damage dealt to the player by the hits among the first `n` entities.
pub open spec fn damage_total<B>(es: Seq<Entity<B>>, hits: Seq<bool>, targetable: bool, n: nat) -> int
    decreases n,
{
    if n == 0 {
        0
    } else {
        damage_total(es, hits, targetable, (n - 1) as nat) + if struck(es[n - 1], hits[n - 1], targetable) {
            es[n - 1].hit_damage()
        } else {
            0
        }
    }
}

/// Freeze ticks called for by the hits among the first `n` entities.
pub open spec fn freeze_total<B>(es: Seq<Entity<B>>, hits: Seq<bool>, targetable: bool, n: nat) -> int
    decreases n,
{
    if n == 0 {
        0
    } else {
        freeze_total(es, hits, targetable, (n - 1) as nat) + if struck(es[n - 1], hits[n - 1], targetable) {
            es[n - 1].hit_freeze()
        } else {
            0
        }
    }
}

/// Particle bursts called for by the hits among the first `n` entities, in
/// arena order.
pub open spec fn bursts_of<B>(es: Seq<Entity<B>>, hits: Seq<bool>, targetable: bool, n: nat) -> Seq<Burst>
    decreases n,
{
    if n == 0 {
        Seq::empty()
    } else if struck(es[n - 1], hits[n - 1], targetable) && es[n - 1].class == Class::HealthPack {
        bursts_of(es, hits, targetable, (n - 1) as nat).push(Burst::Heal { index: (n - 1) as usize })
    } else {
        bursts_of(es, hits, targetable, (n - 1) as nat)
    }
}

proof fn lemma_hit_bounds<B>(e: Entity<B>)
    requires
        e.wf(),
    ensures
        -2 <= e.hit_damage() <= 7,
        0 <= e.hit_freeze() <= 7,
{
    match e.class {
        Class::Bullet => {},
        Class::Slug => {},
        Class::Laser => {},
        Class::HealthPack => {},
        Class::Flak => {},
        Class::FlakChild => {},
        Class::Warning { .. } => {},
    }
}

pub(crate) proof fn lemma_totals_bounded<B>(es: Seq<Entity<B>>, hits: Seq<bool>, targetable: bool, n: nat)
    requires
        n <= es.len(),
        n <= hits.len(),
        forall|i: int| 0 <= i < es.len() ==> #[trigger] es[i].wf(),
    ensures
        -2 * n <= damage_total(es, hits, targetable, n) <= 7 * n,
        0 <= freeze_total(es, hits, targetable, n) <= 7 * n,
    decreases n,
{
    if n > 0 {
        lemma_totals_bounded(es, hits, targetable, (n - 1) as nat);
        lemma_hit_bounds(es[n - 1]);
    }
}

/// Resolves the hits of one arena against the player. `hits[i]` tells
/// whether the hit-circle of entity `i` overlaps the player's. Each entity
/// that is struck adds its effect on the world to the returned sum and takes
/// its own effect on itself. Health pickups are resolved whatever the
/// player's state, damaging kinds only while the player is `targetable`. The
/// sum is applied to the player once, so the order of the hits within a
/// substep does not matter.
pub fn resolve_hits<B: Copy>(entities: &mut Vec<Entity<B>>, hits: &Vec<bool>, targetable: bool) -> (r: StateEffect)
    requires
        old(entities)@.len() == hits@.len(),
        old(entities)@.len() <= MAX_ENTITIES,
        forall|i: int| 0 <= i < old(entities)@.len() ==> #[trigger] old(entities)@[i].wf(),
    ensures
        final(entities)@.len() == old(entities)@.len(),
        forall|i: int| 0 <= i < final(entities)@.len() ==> #[trigger] final(entities)@[i] == if struck(old(entities)@[i], hits@[i], targetable) {
            after_hit(old(entities)@[i])
        } else {
            old(entities)@[i]
        },
        forall|i: int| 0 <= i < final(entities)@.len() ==> #[trigger] final(entities)@[i].wf(),
        r.burger_damage == damage_total(old(entities)@, hits@, targetable, hits@.len() as nat),
        r.freeze == freeze_total(old(entities)@, hits@, targetable, hits@.len() as nat),
        r.score == 0,
        r.bursts@ == bursts_of(old(entities)@, hits@, targetable, hits@.len() as nat),
{
    let ghost es = entities@;
    let mut acc = StateEffect::none();
    let n = entities.len();
    let mut i: usize = 0;
    while i < n
        invariant
            n == es.len(),
            n == hits@.len(),
            n <= MAX_ENTITIES,
            i <= n,
            entities@.len() == n,
            forall|j: int| 0 <= j < n ==> #[trigger] es[j].wf(),
            forall|j: int| 0 <= j < i ==> #[trigger] entities@[j] == if struck(es[j], hits@[j], targetable) {
                after_hit(es[j])
            } else {
                es[j]
            },
            forall|j: int| i <= j < n ==> #[trigger] entities@[j] == es[j],
            acc.burger_damage == damage_total(es, hits@, targetable, i as nat),
            acc.freeze == freeze_total(es, hits@, targetable, i as nat),
            acc.score == 0,
            acc.bursts@ == bursts_of(es, hits@, targetable, i as nat),
        decreases n - i,
    {
        proof {
            lemma_totals_bounded(es, hits@, targetable, i as nat);
        }
        let e = entities[i];
        assert(e == es[i as int]);
        let counts = match e.class {
            Class::HealthPack => true,
            Class::Warning { .. } => false,
            _ => targetable,
        };
        if hits[i] && e.is_alive() && counts {
            let effect = e.effect_on_hit(i);
            proof {
                lemma_hit_bounds(e);
            }
            acc.add(effect);
            let mut hit = e;
            hit.takes_effect(&e.self_effect_on_hit());
            entities.set(i, hit);
            assert(entities@[i as int] == after_hit(es[i as int]));
        }
        assert(acc.bursts@ =~= bursts_of(es, hits@, targetable, (i + 1) as nat));
        i = i + 1;
    }
    proof {
        assert forall|j: int| 0 <= j < n implies #[trigger] entities@[j].wf() by {
            assert(es[j].wf());
        }
    }
    acc
}

} // verus!
