use vstd::prelude::*;
use crate::entity::{Class, Entity};
use crate::spawning::Dir;

verus! {

/// Number of shrapnel pieces a flak shell bursts into, spread evenly around
/// the full circle.
pub const SHRAPNEL_COUNT: u32 = 8;

/// A child entity that an expiring entity leaves behind, positioned from the
/// body `at` of its parent.
#[derive(Clone, Copy, Debug)]
pub enum Offspring<B> {
    /// Piece `slot` of a flak shell's burst: it flies out at `slot` eighths of
    /// a full turn.
    Shrapnel { at: B, slot: u32 },
    /// The laser beam of a warning marker, along `dir`.
    Laser { at: B, dir: Dir },
}

/// What an expiring entity leaves behind: a flak shell its shrapnel, a
/// warning marker its laser, any other kind nothing.
pub open spec fn children<B>(e: Entity<B>) -> Seq<Offspring<B>> {
    match e.class {
        Class::Flak => Seq::new(SHRAPNEL_COUNT as nat, |k: int| Offspring::Shrapnel { at: e.body, slot: k as u32 }),
        Class::Warning { dir, .. } => seq![Offspring::Laser { at: e.body, dir }],
        _ => Seq::empty(),
    }
}

/// Whether the entity stays in play: its lifespan has not run out and it
/// still has hit points.
pub open spec fn stays<B>(e: Entity<B>, expired: bool) -> bool {
    !expired && e.is_alive_spec()
}

/// The entities among the first `n` that stay, in their order.
pub open spec fn kept<B>(es: Seq<Entity<B>>, expired: Seq<bool>, n: nat) -> Seq<Entity<B>>
    decreases n,
{
    if n == 0 {
        Seq::empty()
    } else if stays(es[n - 1], expired[n - 1]) {
        kept(es, expired, (n - 1) as nat).push(es[n - 1])
    } else {
        kept(es, expired, (n - 1) as nat)
    }
}

/// The children of the expired entities among the first `n`, in order.
pub open spec fn offspring<B>(es: Seq<Entity<B>>, expired: Seq<bool>, n: nat) -> Seq<Offspring<B>>
    decreases n,
{
    if n == 0 {
        Seq::empty()
    } else if expired[n - 1] {
        offspring(es, expired, (n - 1) as nat) + children(es[n - 1])
    } else {
        offspring(es, expired, (n - 1) as nat)
    }
}

fn push_children<B: Copy>(out: &mut Vec<Offspring<B>>, e: &Entity<B>)
    ensures
        final(out)@ == old(out)@ + children(*e),
{
    match e.class {
        Class::Flak => {
            let ghost start = out@;
            let mut k: u32 = 0;
            while k < SHRAPNEL_COUNT
                invariant
                    k <= SHRAPNEL_COUNT,
                    e.class == Class::Flak,
                    out@ =~= start + Seq::new(k as nat, |j: int| Offspring::Shrapnel { at: e.body, slot: j as u32 }),
                decreases SHRAPNEL_COUNT - k,
            {
                out.push(Offspring::Shrapnel { at: e.body, slot: k });
                k = k + 1;
            }
        },
        Class::Warning { dir, .. } => {
            out.push(Offspring::Laser { at: e.body, dir });
        },
        _ => {},
    }
}

/// Removes the entities whose lifespan ran out (`expired[i]`) or whose hit
/// points are gone, keeping the order of the rest. Returns the children that
/// the expired ones leave behind, to be added once the arena is culled.
pub fn cull<B: Copy>(entities: &mut Vec<Entity<B>>, expired: &Vec<bool>) -> (r: Vec<Offspring<B>>)
    requires
        old(entities)@.len() == expired@.len(),
    ensures
        final(entities)@ == kept(old(entities)@, expired@, expired@.len() as nat),
        r@ == offspring(old(entities)@, expired@, expired@.len() as nat),
{
    let ghost es = entities@;
    let n = entities.len();
    let mut stay: Vec<Entity<B>> = Vec::new();
    let mut born: Vec<Offspring<B>> = Vec::new();
    let mut i: usize = 0;
    while i < n
        invariant
            n == es.len(),
            n == expired@.len(),
            entities@ == es,
            i <= n,
            stay@ == kept(es, expired@, i as nat),
            born@ == offspring(es, expired@, i as nat),
        decreases n - i,
    {
        let e = entities[i];
        if expired[i] {
            push_children(&mut born, &e);
        } else if e.is_alive() {
            stay.push(e);
        }
        i = i + 1;
    }
    *entities = stay;
    born
}

} // verus!
