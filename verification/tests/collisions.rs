use void_break::collision::check_collisions;
use void_break::components::{
    Affiliation, CollisionConfig, CollisionResolutionStrat, Damage, Entity, Kind, Knockback,
    Transform, Velocity,
};
use void_break::vec2::Vec2;
use void_break::world::World;

fn circle(x: i64, y: i64, radius: i64, affiliation: Affiliation) -> Entity {
    Entity {
        alive: true,
        kind: Kind::Other,
        transform: Transform { pos: Vec2 { x, y }, heading: 0 },
        velocity: Some(Velocity { translation_speed: Vec2 { x: 0, y: 0 }, rotation_speed: 0 }),
        drag: None,
        collision: Some(
            CollisionConfig { radius, collision_resolution: CollisionResolutionStrat::Yield },
        ),
        affiliation: Some(affiliation),
        health: None,
        damage: None,
        knockback: None,
        lifetime: None,
        wrappable: false,
    }
}

fn small_arena() -> World {
    World::new(Vec2 { x: 1_024_000, y: 1_024_000 })
}

#[test]
fn hostile_pair_collides_even_at_zero_distance() {
    // two hostiles of radius five pixels on the same point: detected
    // (0 < 100 in pixel terms), direction resolved by the fixed fallback
    let mut w = small_arena();
    w.spawn(circle(0, 0, 5000, Affiliation::Hostile));
    w.spawn(circle(0, 0, 5000, Affiliation::Hostile));
    let events = check_collisions(&mut w);
    assert_eq!(events.len(), 1);
    assert_eq!(events[0].a, 0);
    assert_eq!(events[0].b, 1);
    assert_eq!(events[0].direction, Vec2 { x: 1000, y: 0 });
    // both yield: the ten-pixel penetration is split evenly along x
    assert_eq!(w.entities[0].transform.pos.x, -5000);
    assert_eq!(w.entities[0].transform.pos.y, 0);
    assert_eq!(w.entities[1].transform.pos.x, 5000);
    assert_eq!(w.entities[1].transform.pos.y, 0);
}

#[test]
fn neutral_pair_is_never_checked() {
    let mut w = small_arena();
    w.spawn(circle(0, 0, 5000, Affiliation::Neutral));
    w.spawn(circle(0, 0, 5000, Affiliation::Neutral));
    let events = check_collisions(&mut w);
    assert_eq!(events.len(), 0);
    assert_eq!(w.entities[0].transform.pos.x, 0);
    assert_eq!(w.entities[1].transform.pos.x, 0);
}

#[test]
fn friendly_pair_is_never_checked() {
    let mut w = small_arena();
    w.spawn(circle(0, 0, 5000, Affiliation::Friendly));
    w.spawn(circle(0, 0, 5000, Affiliation::Friendly));
    let events = check_collisions(&mut w);
    assert_eq!(events.len(), 0);
}

#[test]
fn overlap_is_strict_on_the_squared_radius_sum() {
    // radii three and four pixels: collision iff distance is under seven
    let mut w = small_arena();
    w.spawn(circle(0, 0, 3000, Affiliation::Friendly));
    w.spawn(circle(7000, 0, 4000, Affiliation::Neutral));
    assert_eq!(check_collisions(&mut w).len(), 0);
    let mut w2 = small_arena();
    w2.spawn(circle(0, 0, 3000, Affiliation::Friendly));
    w2.spawn(circle(6999, 0, 4000, Affiliation::Neutral));
    assert_eq!(check_collisions(&mut w2).len(), 1);
}

#[test]
fn detection_is_symmetric_in_pair_order() {
    let mut w = small_arena();
    w.spawn(circle(0, 0, 3000, Affiliation::Friendly));
    w.spawn(circle(5000, 0, 4000, Affiliation::Neutral));
    let mut w2 = small_arena();
    w2.spawn(circle(5000, 0, 4000, Affiliation::Neutral));
    w2.spawn(circle(0, 0, 3000, Affiliation::Friendly));
    assert_eq!(check_collisions(&mut w).len(), 1);
    assert_eq!(check_collisions(&mut w2).len(), 1);
}

#[test]
fn prevent_emits_event_without_resolution() {
    let mut w = small_arena();
    let mut bullet = circle(0, 0, 5000, Affiliation::Friendly);
    bullet.collision = Some(
        CollisionConfig { radius: 5000, collision_resolution: CollisionResolutionStrat::Prevent },
    );
    bullet.damage = Some(Damage::Basic(5000));
    w.spawn(bullet);
    w.spawn(circle(6000, 0, 5000, Affiliation::Neutral));
    let events = check_collisions(&mut w);
    assert_eq!(events.len(), 1);
    assert!(matches!(events[0].damage_a, Some(Damage::Basic(5000))));
    assert!(events[0].damage_b.is_none());
    // neither side moved
    assert_eq!(w.entities[0].transform.pos.x, 0);
    assert_eq!(w.entities[1].transform.pos.x, 6000);
}

#[test]
fn no_yield_side_never_moves() {
    let mut w = small_arena();
    let mut rock = circle(0, 0, 5000, Affiliation::Neutral);
    rock.collision = Some(
        CollisionConfig { radius: 5000, collision_resolution: CollisionResolutionStrat::NoYield },
    );
    w.spawn(rock);
    w.spawn(circle(6000, 0, 5000, Affiliation::Friendly));
    // penetration is four pixels; only the yielding side absorbs it
    let events = check_collisions(&mut w);
    assert_eq!(events.len(), 1);
    assert_eq!(w.entities[0].transform.pos.x, 0);
    assert_eq!(w.entities[1].transform.pos.x, 10_000);
}

#[test]
fn events_carry_knockback_magnitudes() {
    let mut w = small_arena();
    let mut a = circle(0, 0, 5000, Affiliation::Hostile);
    a.knockback = Some(Knockback { amount: 7000 });
    w.spawn(a);
    w.spawn(circle(1000, 0, 5000, Affiliation::Neutral));
    let events = check_collisions(&mut w);
    assert_eq!(events.len(), 1);
    assert_eq!(events[0].knockback_a, 7000);
    assert_eq!(events[0].knockback_b, 0);
}

#[test]
fn dead_entities_do_not_collide() {
    let mut w = small_arena();
    w.spawn(circle(0, 0, 5000, Affiliation::Hostile));
    w.spawn(circle(0, 0, 5000, Affiliation::Hostile));
    w.despawn(0);
    assert_eq!(check_collisions(&mut w).len(), 0);
}
