use gizmo_sequencer::circle::{Circle, Tint};
use gizmo_sequencer::driver::Gate;

fn at_origin(radius: u32, tint: Tint) -> Circle {
    Circle { center_x: 0, center_y: 0, radius, tint }
}

#[test]
fn gates_start_unspent() {
    assert_eq!(Gate::frame_count(4), Gate::FrameCount { counter: 0, frames: 4 });
    assert_eq!(
        Gate::elapsed_time(3_000_000_000),
        Gate::ElapsedTime { drawn: false, after_nanos: 3_000_000_000 }
    );
    assert!(!Gate::frame_count(4).is_spent());
    assert!(!Gate::elapsed_time(3_000_000_000).is_spent());
    assert!(Gate::frame_count(0).is_spent());
}

#[test]
fn frame_count_gate_ignores_the_clock() {
    let mut gate = Gate::frame_count(2);
    assert_eq!(gate.tick(u64::MAX), vec![at_origin(100, Tint::Blue)]);
    assert_eq!(gate, Gate::FrameCount { counter: 1, frames: 2 });
    assert!(!gate.is_spent());
    assert_eq!(gate.tick(0), vec![at_origin(100, Tint::Blue)]);
    assert_eq!(gate, Gate::FrameCount { counter: 2, frames: 2 });
    assert!(gate.is_spent());
    assert_eq!(gate.tick(7), vec![at_origin(200, Tint::Green)]);
    assert_eq!(gate, Gate::FrameCount { counter: 2, frames: 2 });
}

#[test]
fn elapsed_time_gate_releases_once() {
    let mut gate = Gate::elapsed_time(3_000_000_000);
    assert_eq!(gate.tick(2_000_000_000), vec![]);
    assert_eq!(gate.tick(3_000_000_000), vec![]);
    assert!(!gate.is_spent());
    assert_eq!(
        gate.tick(3_000_000_001),
        vec![at_origin(30, Tint::Blue), at_origin(120, Tint::Green)]
    );
    assert!(gate.is_spent());
    assert_eq!(gate, Gate::ElapsedTime { drawn: true, after_nanos: 3_000_000_000 });
    assert_eq!(gate.tick(4_000_000_000), vec![]);
    assert_eq!(gate, Gate::ElapsedTime { drawn: true, after_nanos: 3_000_000_000 });
}

#[test]
fn spent_gate_is_left_as_it_is() {
    let mut counted = Gate::FrameCount { counter: 4, frames: 4 };
    let mut timed = Gate::ElapsedTime { drawn: true, after_nanos: 10 };
    for elapsed in [0, 5, 10, 11, u64::MAX] {
        assert_eq!(counted.tick(elapsed), vec![at_origin(200, Tint::Green)]);
        assert_eq!(counted, Gate::FrameCount { counter: 4, frames: 4 });
        assert!(counted.is_spent());
        assert_eq!(timed.tick(elapsed), vec![]);
        assert_eq!(timed, Gate::ElapsedTime { drawn: true, after_nanos: 10 });
        assert!(timed.is_spent());
    }
}
