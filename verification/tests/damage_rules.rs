use void_break::collision::CollisionEvent;
use void_break::components::{
    Affiliation, CollisionConfig, CollisionResolutionStrat, Damage, Entity, Health, Kind,
    Transform, Velocity,
};
use void_break::control::{spawn_asteroids, spawn_player, Intents};
use void_break::damage::{break_asteroids, fragment_asteroid, hurt_player};
use void_break::pipeline::step;
use void_break::vec2::Vec2;
use void_break::world::{count_players, World};

fn game_arena() -> World {
    World::new(Vec2 { x: 1_024_000, y: 1_024_000 })
}

fn asteroid(x: i64, y: i64, max_health: i64) -> Entity {
    Entity {
        alive: true,
        kind: Kind::Asteroid,
        transform: Transform { pos: Vec2 { x, y }, heading: 0 },
        velocity: Some(Velocity { translation_speed: Vec2 { x: 0, y: 0 }, rotation_speed: 0 }),
        drag: None,
        collision: Some(
            CollisionConfig {
                radius: max_health,
                collision_resolution: CollisionResolutionStrat::Yield,
            },
        ),
        affiliation: Some(Affiliation::Neutral),
        health: Some(Health { health: max_health, max: max_health }),
        damage: Some(Damage::Basic(max_health / 3)),
        knockback: None,
        lifetime: None,
        wrappable: true,
    }
}

fn hit_event(target: usize, other: usize, amount: i64, kb: i64) -> CollisionEvent {
    CollisionEvent {
        a: target,
        b: other,
        damage_a: None,
        damage_b: Some(Damage::Basic(amount)),
        direction: Vec2 { x: 1000, y: 0 },
        knockback_a: 0,
        knockback_b: kb,
    }
}

#[test]
fn player_survives_a_fifty_damage_hit() {
    let mut w = game_arena();
    spawn_player(&mut w);
    let events = vec![hit_event(0, 99, 50_000, 0)];
    hurt_player(&mut w, &events);
    let p = w.entities[0];
    assert!(p.alive);
    let h = p.health.unwrap();
    assert_eq!(h.health, 50_000);
    assert_eq!(h.max, 100_000);
}

#[test]
fn player_despawns_at_zero_health() {
    let mut w = game_arena();
    spawn_player(&mut w);
    let events = vec![hit_event(0, 99, 100_000, 0)];
    hurt_player(&mut w, &events);
    assert!(!w.entities[0].alive);
    assert_eq!(w.entities[0].health.unwrap().health, 0);
}

#[test]
fn knockback_pushes_the_first_side_backward() {
    let mut w = game_arena();
    spawn_player(&mut w);
    let events = vec![hit_event(0, 99, 0, 10_000)];
    hurt_player(&mut w, &events);
    let v = w.entities[0].velocity.unwrap();
    assert_eq!(v.translation_speed.x, -10_000);
    assert_eq!(v.translation_speed.y, 0);
}

#[test]
fn asteroid_knockback_pushes_the_second_side_forward() {
    let mut w = game_arena();
    w.spawn(asteroid(0, 0, 10_000));
    let ev = CollisionEvent {
        a: 7,
        b: 0,
        damage_a: None,
        damage_b: None,
        direction: Vec2 { x: 0, y: 1000 },
        knockback_a: 4000,
        knockback_b: 0,
    };
    let events = vec![ev];
    let mut rng = rand::thread_rng();
    break_asteroids(&mut w, &events, &mut rng);
    let v = w.entities[0].velocity.unwrap();
    assert_eq!(v.translation_speed.x, 0);
    assert_eq!(v.translation_speed.y, 4000);
}

#[test]
fn small_asteroid_shatters_into_at_most_one_fragment() {
    // max health ten pixels, size twenty: divisions drawn from [0, 2)
    let mut w = game_arena();
    w.spawn(asteroid(300, 400, 10_000));
    let events = vec![hit_event(0, 99, 10_000, 0)];
    let mut rng = rand::thread_rng();
    break_asteroids(&mut w, &events, &mut rng);
    assert!(!w.entities[0].alive);
    assert_eq!(w.entities[0].health.unwrap().health, 0);
    let fragments = w.entities.len() - 1;
    assert!(fragments == 0 || fragments == 1);
    if fragments == 1 {
        let f = w.entities[1];
        assert!(f.alive);
        assert_eq!(f.kind, Kind::Asteroid);
        // one fragment: new size is 20000 / max(1, 2) = 10000
        assert_eq!(f.health.unwrap().health, 5000);
        assert_eq!(f.health.unwrap().max, 5000);
        assert_eq!(f.collision.unwrap().radius, 5000);
        assert!(matches!(f.damage, Some(Damage::Basic(3333))));
        // spawned at the parent's last position
        assert_eq!(f.transform.pos.x, 300);
        assert_eq!(f.transform.pos.y, 400);
    }
}

#[test]
fn fragment_counts_and_sizes_follow_the_division_draw() {
    let mut rng = rand::thread_rng();
    for _ in 0..50 {
        let mut pending: Vec<Entity> = Vec::new();
        // max health fifty pixels: size one hundred, cap of five applies
        let divisions = fragment_asteroid(&mut pending, Vec2 { x: 1, y: 2 }, 50_000, &mut rng);
        assert!(0 <= divisions && divisions < 5);
        assert_eq!(pending.len() as i64, divisions);
        let denom = if divisions >= 2 { divisions } else { 2 };
        let ns = 100_000 / denom;
        for f in &pending {
            assert_eq!(f.kind, Kind::Asteroid);
            assert_eq!(f.health.unwrap().health, ns / 2);
            assert_eq!(f.health.unwrap().max, ns / 2);
            assert_eq!(f.collision.unwrap().radius, ns / 2);
            assert!(matches!(f.damage, Some(Damage::Basic(d)) if d == ns / 3));
            assert_eq!(f.transform.pos.x, 1);
            assert_eq!(f.transform.pos.y, 2);
            assert!(f.wrappable);
            let v = f.velocity.unwrap();
            // speed below 3000 px/s over the size in pixels
            let cap = 3_000_000_000 / ns;
            assert!(v.translation_speed.x.abs() <= cap);
            assert!(v.translation_speed.y.abs() <= cap);
            assert!(v.rotation_speed.abs() <= 100_000_000 / ns);
        }
    }
}

#[test]
fn dead_asteroid_ignores_later_events() {
    let mut w = game_arena();
    w.spawn(asteroid(0, 0, 10_000));
    let events = vec![hit_event(0, 99, 10_000, 0), hit_event(0, 99, 10_000, 0)];
    let mut rng = rand::thread_rng();
    break_asteroids(&mut w, &events, &mut rng);
    // the second event found the asteroid despawned: health not driven
    // below zero a second time
    assert_eq!(w.entities[0].health.unwrap().health, 0);
}

#[test]
fn initial_asteroids_are_drawn_inside_their_ranges() {
    let mut w = game_arena();
    let mut rng = rand::thread_rng();
    spawn_asteroids(&mut w, &mut rng);
    assert_eq!(w.entities.len(), 4);
    for e in &w.entities {
        assert!(e.alive);
        assert_eq!(e.kind, Kind::Asteroid);
        let r = e.collision.unwrap().radius;
        // sizes in [10, 100) pixels give radii in [5, 50)
        assert!(5000 <= r && r < 50_000);
        assert_eq!(e.health.unwrap().max, r);
        assert!(-500_000 <= e.transform.pos.x && e.transform.pos.x < 500_000);
        assert!(-500_000 <= e.transform.pos.y && e.transform.pos.y < 500_000);
        assert!(e.wrappable);
    }
}

#[test]
fn a_tick_with_a_fire_intent_spawns_one_bullet() {
    let mut w = game_arena();
    spawn_player(&mut w);
    let mut rng = rand::thread_rng();
    let intents = Intents { forward: false, back: false, left: false, right: false, fire: true };
    let events = step(&mut w, intents, 16, &mut rng);
    assert_eq!(events.len(), 0);
    assert_eq!(w.entities.len(), 2);
    assert_eq!(count_players(&w), 1);
    let b = w.entities[1];
    assert!(b.alive);
    assert_eq!(b.kind, Kind::Bullet);
    assert_eq!(b.lifetime.unwrap().duration, 1500);
    assert_eq!(b.lifetime.unwrap().elapsed, 16);
    // fired along the player's heading and already moved one tick
    assert_eq!(b.transform.pos.x, 0);
    assert_eq!(b.transform.pos.y, 8000);
}

#[test]
fn a_player_asteroid_collision_plays_out_in_one_tick() {
    let mut w = game_arena();
    spawn_player(&mut w);
    w.spawn(asteroid(60_000, 0, 10_000));
    let mut rng = rand::thread_rng();
    let intents = Intents { forward: false, back: false, left: false, right: false, fire: false };
    let events = step(&mut w, intents, 16, &mut rng);
    // radii 65 + 10 pixels against a 60 pixel gap: one event
    assert_eq!(events.len(), 1);
    assert_eq!(events[0].a, 0);
    assert_eq!(events[0].b, 1);
    assert_eq!(events[0].direction, Vec2 { x: 1000, y: 0 });
    // both yield: the fifteen-pixel penetration split evenly
    assert_eq!(w.entities[0].transform.pos.x, -7500);
    assert_eq!(w.entities[1].transform.pos.x, 67_500);
    // the asteroid took the player's contact damage and shattered
    assert!(!w.entities[1].alive);
    let fragments = w.entities.len() - 2;
    assert!(fragments == 0 || fragments == 1);
    // the player took the asteroid's contact damage and survived
    let p = w.entities[0];
    assert!(p.alive);
    assert_eq!(p.health.unwrap().health, 96_667);
}

#[test]
fn thrust_then_drag_runs_a_full_tick() {
    let mut w = game_arena();
    spawn_player(&mut w);
    let mut rng = rand::thread_rng();
    let intents = Intents { forward: true, back: false, left: false, right: false, fire: false };
    step(&mut w, intents, 16, &mut rng);
    let p = w.entities[0];
    assert!(p.alive);
    let v = p.velocity.unwrap();
    // thrust added 16 px/s along +y, then drag took 1.5 * 16 ms off it
    assert_eq!(v.translation_speed.x, 0);
    assert_eq!(v.translation_speed.y, 15_616);
    // the position already advanced before drag was applied
    assert_eq!(p.transform.pos.y, 256);
}
