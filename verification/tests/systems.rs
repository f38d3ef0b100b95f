use void_break::components::{
    Damage, Drag, Entity, Health, Kind, Lifetime, Transform, Velocity,
};
use void_break::kinematics::{drag_step, kinematics_step};
use void_break::lifetime::{cull_bullets, tick_lifetime};
use void_break::vec2::Vec2;
use void_break::world::World;
use void_break::wrap::wrap_step;

fn bare(kind: Kind, x: i64, y: i64) -> Entity {
    Entity {
        alive: true,
        kind,
        transform: Transform { pos: Vec2 { x, y }, heading: 0 },
        velocity: None,
        drag: None,
        collision: None,
        affiliation: None,
        health: None,
        damage: None,
        knockback: None,
        lifetime: None,
        wrappable: false,
    }
}

fn arena() -> World {
    World::new(Vec2 { x: 1_024_000, y: 1_024_000 })
}

#[test]
fn zero_velocity_is_a_kinematics_noop() {
    let mut w = arena();
    let mut e = bare(Kind::Other, 123, 456);
    e.transform.heading = 789;
    e.velocity = Some(Velocity { translation_speed: Vec2 { x: 0, y: 0 }, rotation_speed: 0 });
    e.drag = Some(Drag { translational: 500, rotational: 500 });
    w.spawn(e);
    kinematics_step(&mut w, 16);
    let after = w.entities[0];
    assert_eq!(after.transform.pos.x, 123);
    assert_eq!(after.transform.pos.y, 456);
    assert_eq!(after.transform.heading, 789);
}

#[test]
fn kinematics_integrates_position_and_heading() {
    let mut w = arena();
    let mut e = bare(Kind::Other, 0, 0);
    e.velocity = Some(
        Velocity { translation_speed: Vec2 { x: 1_000_000, y: -2000 }, rotation_speed: 1000 },
    );
    w.spawn(e);
    kinematics_step(&mut w, 1000);
    let after = w.entities[0];
    assert_eq!(after.transform.pos.x, 1_000_000);
    assert_eq!(after.transform.pos.y, -2000);
    assert_eq!(after.transform.heading, 1000);
}

#[test]
fn drag_halves_speed_each_second() {
    let mut w = arena();
    let mut e = bare(Kind::Other, 0, 0);
    e.velocity = Some(
        Velocity { translation_speed: Vec2 { x: 1_000_000, y: 0 }, rotation_speed: -800_000 },
    );
    e.drag = Some(Drag { translational: 500, rotational: 500 });
    w.spawn(e);
    drag_step(&mut w, 1000);
    let v1 = w.entities[0].velocity.unwrap();
    assert_eq!(v1.translation_speed.x, 500_000);
    assert_eq!(v1.rotation_speed, -400_000);
    drag_step(&mut w, 1000);
    let v2 = w.entities[0].velocity.unwrap();
    assert_eq!(v2.translation_speed.x, 250_000);
    assert_eq!(v2.rotation_speed, -200_000);
}

#[test]
fn drag_never_overshoots_zero_within_one_unit_tick() {
    let mut w = arena();
    let mut e = bare(Kind::Other, 0, 0);
    e.velocity = Some(Velocity { translation_speed: Vec2 { x: 7, y: -7 }, rotation_speed: 3 });
    e.drag = Some(Drag { translational: 1000, rotational: 1000 });
    w.spawn(e);
    // coefficient * dt == one drag unit exactly: speed lands on zero
    drag_step(&mut w, 1000);
    let v = w.entities[0].velocity.unwrap();
    assert_eq!(v.translation_speed.x, 0);
    assert_eq!(v.translation_speed.y, 0);
    assert_eq!(v.rotation_speed, 0);
}

#[test]
fn unclamped_drag_beyond_one_inverts_sign() {
    // the drag formula does not clamp: coefficient * dt above one flips
    // the velocity's sign instead of stopping at zero
    let mut w = arena();
    let mut e = bare(Kind::Other, 0, 0);
    e.velocity = Some(Velocity { translation_speed: Vec2 { x: 1000, y: 0 }, rotation_speed: 0 });
    e.drag = Some(Drag { translational: 2000, rotational: 0 });
    w.spawn(e);
    drag_step(&mut w, 1000);
    let v = w.entities[0].velocity.unwrap();
    assert_eq!(v.translation_speed.x, -1000);
}

#[test]
fn wrap_negates_outward_crossing_once() {
    let mut w = arena();
    let mut e = bare(Kind::Other, 600_000, 0);
    e.velocity = Some(Velocity { translation_speed: Vec2 { x: 1, y: 0 }, rotation_speed: 0 });
    e.wrappable = true;
    w.spawn(e);
    wrap_step(&mut w);
    assert_eq!(w.entities[0].transform.pos.x, -600_000);
    // still moving in the positive direction, now inbound: no second wrap
    wrap_step(&mut w);
    assert_eq!(w.entities[0].transform.pos.x, -600_000);
}

#[test]
fn wrap_ignores_inward_movers() {
    let mut w = arena();
    let mut e = bare(Kind::Other, 600_000, -700_000);
    e.velocity = Some(Velocity { translation_speed: Vec2 { x: -1, y: 5 }, rotation_speed: 0 });
    e.wrappable = true;
    w.spawn(e);
    wrap_step(&mut w);
    assert_eq!(w.entities[0].transform.pos.x, 600_000);
    assert_eq!(w.entities[0].transform.pos.y, -700_000);
}

#[test]
fn wrap_skips_entities_without_marker() {
    let mut w = arena();
    let mut e = bare(Kind::Other, 600_000, 0);
    e.velocity = Some(Velocity { translation_speed: Vec2 { x: 1, y: 0 }, rotation_speed: 0 });
    w.spawn(e);
    wrap_step(&mut w);
    assert_eq!(w.entities[0].transform.pos.x, 600_000);
}

#[test]
fn projectile_expires_exactly_at_its_duration() {
    let mut w = arena();
    let mut e = bare(Kind::Bullet, 0, 0);
    e.lifetime = Some(Lifetime { elapsed: 0, duration: 1500 });
    w.spawn(e);
    let no_events = Vec::new();
    tick_lifetime(&mut w, 1000);
    cull_bullets(&mut w, &no_events);
    assert!(w.entities[0].alive);
    tick_lifetime(&mut w, 499);
    cull_bullets(&mut w, &no_events);
    assert!(w.entities[0].alive);
    tick_lifetime(&mut w, 1);
    cull_bullets(&mut w, &no_events);
    assert!(!w.entities[0].alive);
}

#[test]
fn lifetime_leaves_non_bullets_alone() {
    let mut w = arena();
    let mut e = bare(Kind::Other, 0, 0);
    e.lifetime = Some(Lifetime { elapsed: 0, duration: 10 });
    w.spawn(e);
    tick_lifetime(&mut w, 5000);
    let no_events = Vec::new();
    cull_bullets(&mut w, &no_events);
    assert!(w.entities[0].alive);
    assert_eq!(w.entities[0].lifetime.unwrap().elapsed, 5000);
}

#[test]
fn despawn_clears_live_flag_only() {
    let mut w = arena();
    let mut e = bare(Kind::Other, 44, 55);
    e.health = Some(Health { health: 9, max: 9 });
    e.damage = Some(Damage::Basic(3));
    w.spawn(e);
    w.despawn(0);
    assert!(!w.entities[0].alive);
    assert_eq!(w.entities[0].transform.pos.x, 44);
}
