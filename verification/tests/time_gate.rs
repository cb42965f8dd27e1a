use gizmo_sequencer::circle::{Circle, Tint};
use gizmo_sequencer::time_gate::{
    draw_once_after, DRAW_AFTER_NANOS, INNER_RADIUS, OUTER_RADIUS,
};

fn inner() -> Circle {
    Circle { center_x: 0, center_y: 0, radius: 30, tint: Tint::Blue }
}

fn outer() -> Circle {
    Circle { center_x: 0, center_y: 0, radius: 120, tint: Tint::Green }
}

fn run(readings: &[u64], after: u64) -> (Vec<Vec<Circle>>, bool) {
    let mut drawn = false;
    let mut ticks = Vec::new();
    for elapsed in readings {
        ticks.push(draw_once_after(&mut drawn, *elapsed, after));
    }
    (ticks, drawn)
}

#[test]
fn default_wait_is_three_seconds() {
    assert_eq!(DRAW_AFTER_NANOS, 3_000_000_000);
    assert_eq!(INNER_RADIUS, 30);
    assert_eq!(OUTER_RADIUS, 120);
}

#[test]
fn nothing_is_drawn_before_three_seconds() {
    let readings = [0, 16_000_000, 1_000_000_000, 2_999_999_999];
    let (ticks, drawn) = run(&readings, DRAW_AFTER_NANOS);
    assert_eq!(ticks, vec![vec![], vec![], vec![], vec![]]);
    assert!(!drawn);
}

#[test]
fn nothing_is_drawn_at_three_seconds_sharp() {
    let mut drawn = false;
    let draws = draw_once_after(&mut drawn, 3_000_000_000, DRAW_AFTER_NANOS);
    assert_eq!(draws, vec![]);
    assert!(!drawn);
}

#[test]
fn both_circles_are_drawn_on_the_first_tick_past_three_seconds() {
    let mut drawn = false;
    let draws = draw_once_after(&mut drawn, 3_000_000_001, DRAW_AFTER_NANOS);
    assert_eq!(draws, vec![inner(), outer()]);
    assert!(drawn);
}

#[test]
fn circles_are_drawn_exactly_once_over_a_run() {
    let readings = [
        0,
        1_500_000_000,
        2_999_000_000,
        3_016_000_000,
        3_033_000_000,
        10_000_000_000,
        u64::MAX,
    ];
    let (ticks, drawn) = run(&readings, DRAW_AFTER_NANOS);
    assert_eq!(
        ticks,
        vec![vec![], vec![], vec![], vec![inner(), outer()], vec![], vec![], vec![]]
    );
    assert!(drawn);
    let circles: usize = ticks.iter().map(|draws| draws.len()).sum();
    assert_eq!(circles, 2);
}

#[test]
fn latched_gate_draws_nothing_whatever_the_clock_reads() {
    for elapsed in [0, 2_000_000_000, 3_000_000_000, 3_000_000_001, u64::MAX] {
        let mut drawn = true;
        let draws = draw_once_after(&mut drawn, elapsed, DRAW_AFTER_NANOS);
        assert_eq!(draws, vec![]);
        assert!(drawn);
    }
}

#[test]
fn latch_stays_set_when_the_clock_goes_back() {
    let readings = [4_000_000_000, 1_000_000_000, 5_000_000_000];
    let (ticks, drawn) = run(&readings, DRAW_AFTER_NANOS);
    assert_eq!(ticks, vec![vec![inner(), outer()], vec![], vec![]]);
    assert!(drawn);
}

#[test]
fn wait_is_tunable() {
    let mut drawn = false;
    assert_eq!(draw_once_after(&mut drawn, 5, 5), vec![]);
    assert!(!drawn);
    assert_eq!(draw_once_after(&mut drawn, 6, 5), vec![inner(), outer()]);
    assert!(drawn);
    let mut drawn = false;
    assert_eq!(draw_once_after(&mut drawn, 1, 0), vec![inner(), outer()]);
    let mut drawn = false;
    assert_eq!(draw_once_after(&mut drawn, u64::MAX, u64::MAX), vec![]);
    assert!(!drawn);
}
