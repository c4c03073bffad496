use vstd::prelude::*;
use crate::cull::{cull, kept, offspring, Offspring};
use crate::effect::{Burst, StateEffect, CHEESE_SCORE};
use crate::entity::{Class, Entity};
use crate::hits::{bursts_of, damage_total, freeze_total, resolve_hits, struck, after_hit, MAX_ENTITIES};
use crate::player::{applied_hp, Player, MAX_HP};

verus! {

/// Most health pickups the spawn director aims for at once.
pub const MAX_HEALTH_PACK_RATE: i32 = 8;

/// How many of the first `n` entities are health pickups.
pub open spec fn health_pack_count<B>(es: Seq<Entity<B>>, n: nat) -> nat
    decreases n,
{
    if n == 0 {
        0
    } else if es[n - 1].class == Class::HealthPack {
        health_pack_count(es, (n - 1) as nat) + 1
    } else {
        health_pack_count(es, (n - 1) as nat)
    }
}

/// The spawn-rate factor of health pickups: the player's missing hit points
/// less two for each pickup already in play, kept within 0 and 8.
pub open spec fn health_pack_rate_spec(missing_hp: int, count: int) -> int {
    let want = missing_hp - 2 * count;
    if want < 0 {
        0
    } else if want > MAX_HEALTH_PACK_RATE {
        MAX_HEALTH_PACK_RATE as int
    } else {
        want
    }
}

/// The match: freeze ticks left, score, the player's hit points, the arena,
/// and whether the game is over.
pub struct State<B> {
    pub frozen: u32,
    pub score: i32,
    pub player: Player,
    pub entities: Vec<Entity<B>>,
    pub over: bool,
}

impl<B: Copy> State<B> {
    /// Well formed: the player's hit points within the maximum, every entity
    /// well formed, and no more entities than the hit resolution is sized for.
    pub open spec fn wf(&self) -> bool {
        &&& self.player.wf()
        &&& self.entities@.len() <= MAX_ENTITIES
        &&& forall|i: int| 0 <= i < self.entities@.len() ==> #[trigger] self.entities@[i].wf()
    }

    /// The state a match starts in; it fixes every field.
    pub open spec fn is_initial(&self) -> bool {
        &&& self.frozen == 0
        &&& self.score == 0
        &&& self.player.hp == MAX_HP
        &&& self.entities@ == Seq::<Entity<B>>::empty()
        &&& !self.over
    }

    /// A new match.
    pub fn reset() -> (r: State<B>)
        ensures
            r.is_initial(),
            r.wf(),
    {
        State { frozen: 0, score: 0, player: Player::new(), entities: Vec::new(), over: false }
    }

    /// Starts the match over, whatever state it was in.
    pub fn restart(&mut self)
        ensures
            final(self).is_initial(),
            final(self).wf(),
    {
        *self = State::reset();
    }

    /// Whether the game is over: the player is out of hit points and the
    /// freeze of the last hit has run out.
    pub fn game_is_over(&self) -> (r: bool)
        ensures
            r == (self.player.hp <= 0 && self.frozen == 0),
    {
        !self.player.is_alive() && self.frozen == 0
    }

    /// Moves the match to game over once the player is out of hit points and
    /// the freeze has run out; a game over stays over until a restart.
    pub fn update_phase(&mut self)
        ensures
            final(self).over == (old(self).over || (old(self).player.hp <= 0 && old(self).frozen == 0)),
            final(self).frozen == old(self).frozen,
            final(self).score == old(self).score,
            final(self).player == old(self).player,
            final(self).entities@ == old(self).entities@,
    {
        if self.game_is_over() {
            self.over = true;
        }
    }

    /// Opens a substep. Returns whether its logic runs: not once the game is
    /// over, and not while the freeze lasts, which this substep then counts
    /// down by one tick.
    pub fn begin_substep(&mut self) -> (r: bool)
        ensures
            r == (!old(self).over && old(self).frozen == 0),
            final(self).frozen == if !old(self).over && old(self).frozen > 0 {
                (old(self).frozen - 1) as u32
            } else {
                old(self).frozen
            },
            final(self).score == old(self).score,
            final(self).player == old(self).player,
            final(self).entities@ == old(self).entities@,
            final(self).over == old(self).over,
    {
        if self.over {
            false
        } else if self.frozen > 0 {
            self.frozen = self.frozen - 1;
            false
        } else {
            true
        }
    }

    /// Applies the summed effect of a substep's hits once: its score and
    /// freeze are added, and its damage is taken by the player, whose hit
    /// points then stop at the maximum.
    pub fn apply_effect(&mut self, effect: &StateEffect)
        requires
            i32::MIN <= old(self).score + effect.score <= i32::MAX,
            old(self).frozen + effect.freeze <= u32::MAX,
            i32::MIN <= old(self).player.hp - effect.burger_damage <= i32::MAX,
        ensures
            final(self).score == old(self).score + effect.score,
            final(self).frozen == old(self).frozen + effect.freeze,
            final(self).player.hp == applied_hp(old(self).player.hp as int, effect.burger_damage as int),
            final(self).player.wf(),
            final(self).entities@ == old(self).entities@,
            final(self).over == old(self).over,
    {
        self.score = self.score + effect.score;
        self.frozen = self.frozen + effect.freeze;
        self.player.apply_damage(effect.burger_damage);
    }

    /// Resolves the player's collisions of a substep: the cheese first, if the
    /// player reached it, then the arena's hits (`hits[i]` tells whether
    /// entity `i` overlaps the player). Their sum is applied once, and
    /// returned so that its bursts and cues can be played out.
    pub fn resolve_collisions(&mut self, reached_cheese: bool, hits: &Vec<bool>, targetable: bool) -> (r: StateEffect)
        requires
            old(self).wf(),
            hits@.len() == old(self).entities@.len(),
            old(self).score <= i32::MAX - CHEESE_SCORE,
            old(self).frozen + 7 * old(self).entities@.len() <= u32::MAX,
            old(self).player.hp - 7 * old(self).entities@.len() >= i32::MIN,
        ensures
            final(self).wf(),
            final(self).entities@.len() == old(self).entities@.len(),
            forall|i: int| 0 <= i < final(self).entities@.len() ==> #[trigger] final(self).entities@[i] == if struck(old(self).entities@[i], hits@[i], targetable) {
                after_hit(old(self).entities@[i])
            } else {
                old(self).entities@[i]
            },
            r.burger_damage == damage_total(old(self).entities@, hits@, targetable, hits@.len() as nat),
            r.freeze == freeze_total(old(self).entities@, hits@, targetable, hits@.len() as nat),
            r.score == if reached_cheese { CHEESE_SCORE as int } else { 0 },
            r.bursts@ == (if reached_cheese { seq![Burst::Cheese] } else { Seq::<Burst>::empty() })
                + bursts_of(old(self).entities@, hits@, targetable, hits@.len() as nat),
            final(self).score == old(self).score + r.score,
            final(self).frozen == old(self).frozen + r.freeze,
            final(self).player.hp == applied_hp(old(self).player.hp as int, r.burger_damage as int),
            final(self).over == old(self).over,
    {
        let mut total = if reached_cheese { StateEffect::cheese() } else { StateEffect::none() };
        let arena = resolve_hits(&mut self.entities, hits, targetable);
        proof {
            crate::hits::lemma_totals_bounded(old(self).entities@, hits@, targetable, hits@.len() as nat);
        }
        total.add(arena);
        self.apply_effect(&total);
        total
    }

    /// Adds an entity to the arena.
    pub fn spawn(&mut self, e: Entity<B>)
        requires
            old(self).wf(),
            e.wf(),
            old(self).entities@.len() < MAX_ENTITIES,
        ensures
            final(self).wf(),
            final(self).entities@ == old(self).entities@.push(e),
            final(self).frozen == old(self).frozen,
            final(self).score == old(self).score,
            final(self).player == old(self).player,
            final(self).over == old(self).over,
    {
        self.entities.push(e);
        proof {
            assert forall|i: int| 0 <= i < self.entities@.len() implies #[trigger] self.entities@[i].wf() by {
                if i < old(self).entities@.len() {
                    assert(old(self).entities@[i].wf());
                }
            }
        }
    }

    /// How many health pickups are in play.
    pub fn health_pack_count(&self) -> (r: usize)
        ensures
            r == health_pack_count(self.entities@, self.entities@.len() as nat),
            r <= self.entities@.len(),
    {
        let n = self.entities.len();
        let mut count: usize = 0;
        let mut i: usize = 0;
        while i < n
            invariant
                n == self.entities@.len(),
                i <= n,
                count == health_pack_count(self.entities@, i as nat),
                count <= i,
            decreases n - i,
        {
            if self.entities[i].class == Class::HealthPack {
                count = count + 1;
            }
            i = i + 1;
        }
        count
    }

    /// The spawn-rate factor of health pickups: it falls to zero once the
    /// pickups in play make up for the player's missing hit points.
    pub fn health_pack_rate(&self) -> (r: i32)
        requires
            self.wf(),
        ensures
            r == health_pack_rate_spec(
                MAX_HP - self.player.hp,
                health_pack_count(self.entities@, self.entities@.len() as nat) as int,
            ),
            0 <= r <= MAX_HEALTH_PACK_RATE,
    {
        let count = self.health_pack_count();
        let want: i64 = (MAX_HP as i64 - self.player.hp as i64) - 2 * (count as i64);
        if want < 0 {
            0
        } else if want > MAX_HEALTH_PACK_RATE as i64 {
            MAX_HEALTH_PACK_RATE
        } else {
            want as i32
        }
    }

    /// Removes the expired (`expired[i]`) and destroyed entities, then adds the
    /// children that the expired ones leave behind; returns those children
    /// for their bodies to be placed.
    pub fn cull(&mut self, expired: &Vec<bool>) -> (r: Vec<Offspring<B>>)
        requires
            expired@.len() == old(self).entities@.len(),
        ensures
            final(self).entities@ == kept(old(self).entities@, expired@, expired@.len() as nat),
            r@ == offspring(old(self).entities@, expired@, expired@.len() as nat),
            final(self).frozen == old(self).frozen,
            final(self).score == old(self).score,
            final(self).player == old(self).player,
            final(self).over == old(self).over,
    {
        cull(&mut self.entities, expired)
    }
}

/// Restarting a match, from whatever state, gives exactly a new match: two
/// states that are both initial agree on every field.
pub proof fn lemma_restart_round_trip<B: Copy>(restarted: State<B>, fresh: State<B>)
    requires
        restarted.is_initial(),
        fresh.is_initial(),
    ensures
        restarted.frozen == fresh.frozen,
        restarted.score == fresh.score,
        restarted.player == fresh.player,
        restarted.entities@ == fresh.entities@,
        restarted.over == fresh.over,
{
}

} // verus!
