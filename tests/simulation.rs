use cheeseburger::cull::{cull, Offspring, SHRAPNEL_COUNT};
use cheeseburger::effect::{Burst, Effect, StateEffect};
use cheeseburger::entity::{Class, Entity};
use cheeseburger::hits::resolve_hits;
use cheeseburger::player::{Player, MAX_HP};
use cheeseburger::spawning::Dir;
use cheeseburger::state::State;

type Body = (f64, f64);

#[test]
fn catalog_constants() {
    assert_eq!(Class::Bullet.radius(), Some(3));
    assert_eq!(Class::Slug.radius(), Some(10));
    assert_eq!(Class::Flak.radius(), Some(7));
    assert_eq!(Class::FlakChild.radius(), Some(4));
    assert_eq!(Class::Laser.radius(), Some(3));
    assert_eq!(Class::HealthPack.radius(), Some(5));
    let warning = Class::Warning { dir: Dir { x: 1, y: 0 }, delay: 15 };
    assert_eq!(warning.radius(), None);
    assert_eq!(warning.lifespan(), 75);
    assert_eq!(Class::Bullet.starting_hp(), Some(3));
    assert_eq!(Class::Slug.starting_hp(), Some(7));
    assert_eq!(Class::Flak.lifespan(), 200);
    assert_eq!(Class::FlakChild.lifespan(), 300);
    assert_eq!(Class::Slug.lifespan(), 1500);
    let b: Entity<Body> = Entity::new(Class::Bullet, 20, (1.0, 2.0));
    assert_eq!(b.lifespan, 770);
    assert_eq!(b.hp, Some(3));
}

#[test]
fn small_projectile_destroyed_by_one_hit() {
    let bullet: Entity<Body> = Entity::new(Class::Bullet, 0, (0.0, 0.0));
    assert_eq!(bullet.self_effect_on_hit(), Effect { damage: 3 });
    let mut arena = vec![bullet];
    let effect = resolve_hits(&mut arena, &vec![true], true);
    assert_eq!(effect.burger_damage, 3);
    assert_eq!(arena[0].hp, Some(0));
    assert!(!arena[0].is_alive());
    let born = cull(&mut arena, &vec![false]);
    assert!(arena.is_empty());
    assert!(born.is_empty());
}

#[test]
fn invulnerable_player_still_healed() {
    let mut arena: Vec<Entity<Body>> = vec![
        Entity::new(Class::Slug, 0, (0.0, 0.0)),
        Entity::new(Class::HealthPack, 0, (1.0, 0.0)),
        Entity::new(Class::Laser, 0, (2.0, 0.0)),
    ];
    let effect = resolve_hits(&mut arena, &vec![true, true, true], false);
    assert_eq!(effect.burger_damage, -2);
    assert_eq!(effect.freeze, 0);
    assert_eq!(effect.bursts, vec![Burst::Heal { index: 1 }]);
    assert_eq!(arena[0].hp, Some(7));
    assert_eq!(arena[1].hp, Some(0));
    assert_eq!(arena[2].hp, Some(5));
}

#[test]
fn simultaneous_hits_add_up() {
    let mut arena: Vec<Entity<Body>> = vec![
        Entity::new(Class::Slug, 0, (0.0, 0.0)),
        Entity::new(Class::Bullet, 0, (1.0, 0.0)),
        Entity::new(Class::FlakChild, 0, (2.0, 0.0)),
        Entity::new(Class::HealthPack, 0, (3.0, 0.0)),
    ];
    let effect = resolve_hits(&mut arena, &vec![true, false, true, true], true);
    assert_eq!(effect.burger_damage, 7 + 2 - 2);
    assert_eq!(effect.freeze, 9);
    assert_eq!(arena[1].hp, Some(3));
    let born = cull(&mut arena, &vec![false, false, false, false]);
    assert!(born.is_empty());
    assert_eq!(arena.len(), 1);
    assert_eq!(arena[0].class, Class::Bullet);
}

#[test]
fn warnings_never_collide() {
    let warning = Class::Warning { dir: Dir { x: 0, y: 1 }, delay: 0 };
    let mut arena: Vec<Entity<Body>> = vec![Entity::new(warning, 0, (0.0, 0.0))];
    let effect = resolve_hits(&mut arena, &vec![true], true);
    assert_eq!(effect.burger_damage, 0);
    assert_eq!(arena[0].hp, None);
}

#[test]
fn expired_flak_bursts_into_eight_pieces() {
    let mut arena: Vec<Entity<Body>> = vec![
        Entity::new(Class::Bullet, 0, (9.0, 9.0)),
        Entity::new(Class::Flak, 0, (4.0, 5.0)),
    ];
    let born = cull(&mut arena, &vec![false, true]);
    assert_eq!(SHRAPNEL_COUNT, 8);
    assert_eq!(born.len(), 8);
    for (k, child) in born.iter().enumerate() {
        match child {
            Offspring::Shrapnel { at, slot } => {
                assert_eq!(*slot as usize, k);
                assert_eq!(*at, (4.0, 5.0));
            }
            Offspring::Laser { .. } => panic!("a flak shell leaves no laser"),
        }
    }
    assert_eq!(arena.len(), 1);
    assert_eq!(arena[0].class, Class::Bullet);
}

#[test]
fn expired_warning_leaves_laser() {
    let dir = Dir { x: -1, y: 0 };
    let mut arena: Vec<Entity<Body>> =
        vec![Entity::new(Class::Warning { dir, delay: 30 }, 0, (3.0, 3.0))];
    let born = cull(&mut arena, &vec![true]);
    assert!(arena.is_empty());
    assert_eq!(born.len(), 1);
    match born[0] {
        Offspring::Laser { at, dir: d } => {
            assert_eq!(at, (3.0, 3.0));
            assert_eq!(d, dir);
        }
        Offspring::Shrapnel { .. } => panic!("a warning leaves no shrapnel"),
    }
}

#[test]
fn heal_never_exceeds_max_hp() {
    let mut p = Player::new();
    assert_eq!(p.max_hp(), 8);
    p.apply_damage(3);
    assert_eq!(p.hp, 5);
    assert_eq!(p.missing_hp(), 3);
    p.apply_damage(-2);
    assert_eq!(p.hp, 7);
    p.apply_damage(-2);
    assert_eq!(p.hp, MAX_HP);
    p.apply_damage(9);
    assert_eq!(p.hp, -1);
    assert!(!p.is_alive());
    p.takes_effect(&Effect { damage: -20 });
    assert_eq!(p.hp, 19);
    p.bound_stats();
    assert_eq!(p.hp, 8);
}

#[test]
fn health_pack_rate_throttled() {
    let mut s: State<Body> = State::reset();
    assert_eq!(s.health_pack_rate(), 0);
    s.player.hp = 3;
    assert_eq!(s.health_pack_rate(), 5);
    s.spawn(Entity::new(Class::HealthPack, 0, (0.0, 0.0)));
    s.spawn(Entity::new(Class::Bullet, 0, (0.0, 0.0)));
    assert_eq!(s.health_pack_count(), 1);
    assert_eq!(s.health_pack_rate(), 3);
    s.spawn(Entity::new(Class::HealthPack, 0, (0.0, 0.0)));
    s.spawn(Entity::new(Class::HealthPack, 0, (0.0, 0.0)));
    assert_eq!(s.health_pack_rate(), 0);
    s.player.hp = -20;
    assert_eq!(s.health_pack_rate(), 8);
}

#[test]
fn collisions_apply_once_with_cheese() {
    let mut s: State<Body> = State::reset();
    s.spawn(Entity::new(Class::Bullet, 0, (0.0, 0.0)));
    s.spawn(Entity::new(Class::Flak, 0, (0.0, 0.0)));
    s.spawn(Entity::new(Class::HealthPack, 0, (0.0, 0.0)));
    let effect = s.resolve_collisions(true, &vec![true, true, true], true);
    assert_eq!(effect.score, 100);
    assert_eq!(effect.burger_damage, 3 + 5 - 2);
    assert_eq!(effect.bursts, vec![Burst::Cheese, Burst::Heal { index: 2 }]);
    assert_eq!(s.score, 100);
    assert_eq!(s.frozen, 8);
    assert_eq!(s.player.hp, 2);
    let born = s.cull(&vec![false, false, false]);
    assert!(born.is_empty());
    assert!(s.entities.is_empty());
}

#[test]
fn freeze_skips_substeps() {
    let mut s: State<Body> = State::reset();
    let mut hit = StateEffect::none();
    hit.freeze = 2;
    hit.burger_damage = 8;
    s.apply_effect(&hit);
    assert_eq!(s.player.hp, 0);
    assert!(!s.game_is_over());
    assert!(!s.begin_substep());
    assert!(!s.begin_substep());
    assert_eq!(s.frozen, 0);
    assert!(s.game_is_over());
    s.update_phase();
    assert!(s.over);
    assert!(!s.begin_substep());
}

#[test]
fn restart_restores_new_match() {
    let mut s: State<Body> = State::reset();
    s.spawn(Entity::new(Class::Slug, 0, (0.0, 0.0)));
    let _ = s.resolve_collisions(true, &vec![true], true);
    s.update_phase();
    s.restart();
    let fresh: State<Body> = State::reset();
    assert_eq!(s.frozen, fresh.frozen);
    assert_eq!(s.score, fresh.score);
    assert_eq!(s.player, fresh.player);
    assert_eq!(s.entities.len(), fresh.entities.len());
    assert_eq!(s.over, fresh.over);
    assert_eq!(s.score, 0);
    assert_eq!(s.player.hp, 8);
}

#[test]
fn cheese_effect_awards_score() {
    let mut total = StateEffect::cheese();
    total.add(StateEffect::cheese());
    assert_eq!(total.score, 200);
    assert_eq!(total.bursts, vec![Burst::Cheese, Burst::Cheese]);
}

#[test]
fn empty_arena_has_no_effect() {
    let mut arena: Vec<Entity<Body>> = Vec::new();
    let effect = resolve_hits(&mut arena, &Vec::new(), true);
    assert_eq!(effect.burger_damage, 0);
    assert_eq!(effect.freeze, 0);
    assert_eq!(effect.score, 0);
    assert!(effect.bursts.is_empty());
    let born = cull(&mut arena, &Vec::new());
    assert!(born.is_empty());
    assert!(arena.is_empty());
}
