use void_break::fixed::{add_clamped, isqrt, mul_div, LIM};
use void_break::trig::{cos_milli, mod_tau, sin_milli, HALF_PI_MILLI, PI_MILLI, TAU_MILLI};
use void_break::vec2::{dist, dist_sq, unit_toward, Vec2};
use void_break::world::GameState;
use void_break::components::Damage;

#[test]
fn mul_div_truncates_toward_zero() {
    assert_eq!(mul_div(7, 3, 2), 10);
    assert_eq!(mul_div(-7, 3, 2), -10);
    assert_eq!(mul_div(7, -3, 2), -10);
    assert_eq!(mul_div(-7, -3, 2), 10);
    assert_eq!(mul_div(0, 12345, 7), 0);
}

#[test]
fn mul_div_saturates_at_limits() {
    assert_eq!(mul_div(LIM, 2, 1), LIM);
    assert_eq!(mul_div(-LIM, 2, 1), -LIM);
}

#[test]
fn add_clamped_saturates() {
    assert_eq!(add_clamped(LIM, LIM), LIM);
    assert_eq!(add_clamped(-LIM, -LIM), -LIM);
    assert_eq!(add_clamped(5, -12), -7);
}

#[test]
fn isqrt_brackets_squares() {
    assert_eq!(isqrt(0), 0);
    assert_eq!(isqrt(15), 3);
    assert_eq!(isqrt(16), 4);
    assert_eq!(isqrt(999_999), 999);
    assert_eq!(isqrt(1_000_000), 1000);
    assert_eq!(isqrt(u64::MAX), 0x1_0000_0000 - 1);
}

#[test]
fn mod_tau_normalizes() {
    assert_eq!(mod_tau(0), 0);
    assert_eq!(mod_tau(TAU_MILLI), 0);
    assert_eq!(mod_tau(-1), TAU_MILLI - 1);
    assert_eq!(mod_tau(TAU_MILLI + 5), 5);
    assert_eq!(mod_tau(-TAU_MILLI - 1), TAU_MILLI - 1);
}

#[test]
fn sine_hits_unit_peak() {
    assert_eq!(sin_milli(0), 0);
    assert_eq!(sin_milli(HALF_PI_MILLI), 1000);
    assert_eq!(sin_milli(PI_MILLI + HALF_PI_MILLI), -1000);
    assert_eq!(cos_milli(0), 1000);
    for step in 0..100 {
        let theta = step * 63;
        let s = sin_milli(theta);
        let c = cos_milli(theta);
        assert!(-1000 <= s && s <= 1000);
        assert!(-1000 <= c && c <= 1000);
    }
}

#[test]
fn distance_of_three_four_five() {
    let a = Vec2 { x: 0, y: 0 };
    let b = Vec2 { x: 3000, y: 4000 };
    assert_eq!(dist_sq(a, b), 25_000_000);
    assert_eq!(dist(a, b), 5000);
    let d = unit_toward(a, b);
    assert_eq!(d.x, 600);
    assert_eq!(d.y, 800);
}

#[test]
fn coincident_points_fall_back_to_x_axis() {
    let a = Vec2 { x: 7, y: -9 };
    let d = unit_toward(a, a);
    assert_eq!(d.x, 1000);
    assert_eq!(d.y, 0);
}

#[test]
fn pause_toggles_both_ways() {
    assert_eq!(GameState::Play.toggled(), GameState::Paused);
    assert_eq!(GameState::Paused.toggled(), GameState::Play);
}

#[test]
fn default_damage_is_zero() {
    match Damage::default() {
        Damage::Basic(v) => assert_eq!(v, 0),
    }
}
