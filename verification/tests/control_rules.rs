use void_break::collision::CollisionEvent;
use void_break::components::{Damage, Entity, Kind, Lifetime, Transform, Velocity};
use void_break::control::{player_controller, spawn_player, Intents};
use void_break::damage::hurt_player;
use void_break::lifetime::cull_bullets;
use void_break::vec2::Vec2;
use void_break::world::{count_players, World};
use void_break::wrap::wrap_step;

fn field() -> World {
    World::new(Vec2 { x: 1_024_000, y: 1_024_000 })
}

fn still() -> Intents {
    Intents { forward: false, back: false, left: false, right: false, fire: false }
}

#[test]
fn thrust_accelerates_along_the_heading() {
    let mut w = field();
    spawn_player(&mut w);
    let mut intents = still();
    intents.forward = true;
    // heading zero points along +y; one second of thrust is 1000 px/s
    player_controller(&mut w, intents, 1000);
    let v = w.entities[0].velocity.unwrap();
    assert_eq!(v.translation_speed.x, 0);
    assert_eq!(v.translation_speed.y, 1_000_000);
}

#[test]
fn opposed_thrust_intents_cancel() {
    let mut w = field();
    spawn_player(&mut w);
    let mut intents = still();
    intents.forward = true;
    intents.back = true;
    player_controller(&mut w, intents, 1000);
    let v = w.entities[0].velocity.unwrap();
    assert_eq!(v.translation_speed.x, 0);
    assert_eq!(v.translation_speed.y, 0);
}

#[test]
fn rotation_intent_adds_a_turn_per_second() {
    let mut w = field();
    spawn_player(&mut w);
    let mut intents = still();
    intents.left = true;
    player_controller(&mut w, intents, 500);
    let v = w.entities[0].velocity.unwrap();
    // half a second of a full turn per second: 6283 * 500 / 1000
    assert_eq!(v.rotation_speed, 3141);
    let mut back = still();
    back.right = true;
    player_controller(&mut w, back, 500);
    assert_eq!(w.entities[0].velocity.unwrap().rotation_speed, 0);
}

#[test]
fn fire_intent_spawns_the_projectile_template() {
    let mut w = field();
    spawn_player(&mut w);
    let mut intents = still();
    intents.fire = true;
    player_controller(&mut w, intents, 16);
    assert_eq!(w.entities.len(), 2);
    assert_eq!(count_players(&w), 1);
    let b = w.entities[1];
    assert_eq!(b.kind, Kind::Bullet);
    assert!(matches!(b.damage, Some(Damage::Basic(5000))));
    assert_eq!(b.collision.unwrap().radius, 13_000);
    assert_eq!(b.knockback.unwrap().amount, 5000);
    assert_eq!(b.lifetime.unwrap().duration, 1500);
    assert!(b.wrappable);
    // fired straight ahead at 500 px/s from a resting player at heading zero
    let v = b.velocity.unwrap();
    assert_eq!(v.translation_speed.x, 0);
    assert_eq!(v.translation_speed.y, 500_000);
    assert_eq!(v.rotation_speed, 0);
}

#[test]
fn a_resting_entity_beyond_the_edge_wraps() {
    // zero velocity counts as outward on the positive side: the sign
    // test matches on strict negativity
    let mut w = field();
    let e = Entity {
        alive: true,
        kind: Kind::Other,
        transform: Transform { pos: Vec2 { x: 600_000, y: 0 }, heading: 0 },
        velocity: Some(Velocity { translation_speed: Vec2 { x: 0, y: 0 }, rotation_speed: 0 }),
        drag: None,
        collision: None,
        affiliation: None,
        health: None,
        damage: None,
        knockback: None,
        lifetime: None,
        wrappable: true,
    };
    w.spawn(e);
    wrap_step(&mut w);
    assert_eq!(w.entities[0].transform.pos.x, -600_000);
}

#[test]
fn bullets_die_on_any_collision_event() {
    let mut w = field();
    let bullet = Entity {
        alive: true,
        kind: Kind::Bullet,
        transform: Transform { pos: Vec2 { x: 0, y: 0 }, heading: 0 },
        velocity: None,
        drag: None,
        collision: None,
        affiliation: None,
        health: None,
        damage: None,
        knockback: None,
        lifetime: Some(Lifetime { elapsed: 0, duration: 99_000 }),
        wrappable: false,
    };
    w.spawn(bullet);
    let ev = CollisionEvent {
        a: 5,
        b: 0,
        damage_a: None,
        damage_b: None,
        direction: Vec2 { x: 1000, y: 0 },
        knockback_a: 0,
        knockback_b: 0,
    };
    let events = vec![ev];
    cull_bullets(&mut w, &events);
    assert!(!w.entities[0].alive);
}

#[test]
fn events_naming_missing_entities_are_no_ops() {
    let mut w = field();
    spawn_player(&mut w);
    let ev = CollisionEvent {
        a: 40,
        b: 41,
        damage_a: Some(Damage::Basic(1_000_000)),
        damage_b: Some(Damage::Basic(1_000_000)),
        direction: Vec2 { x: 1000, y: 0 },
        knockback_a: 500,
        knockback_b: 500,
    };
    let events = vec![ev];
    hurt_player(&mut w, &events);
    assert!(w.entities[0].alive);
    assert_eq!(w.entities[0].health.unwrap().health, 100_000);
}
