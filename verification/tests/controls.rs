use sliding_square::controls::Controls;
use sliding_square::direction::{Axis, Direction};

const ALL: [Direction; 4] = [Direction::Up, Direction::Down, Direction::Left, Direction::Right];

fn every_state() -> Vec<Controls> {
    let mut states = Vec::new();
    for bits in 0..16u8 {
        states.push(Controls {
            up: bits & 1 != 0,
            down: bits & 2 != 0,
            left: bits & 4 != 0,
            right: bits & 8 != 0,
        });
    }
    states
}

/// The sum of the pushes that a frame applies along `axis`.
fn net_push(controls: &Controls, axis: Axis) -> i32 {
    controls.held().into_iter().filter(|d| d.axis() == axis).map(|d| i32::from(d.sign())).sum()
}

#[test]
fn new_controls_hold_nothing() {
    let controls = Controls::new();
    assert_eq!(controls, Controls { up: false, down: false, left: false, right: false });
    for d in ALL {
        assert!(!controls.is_held(d));
    }
    assert_eq!(controls.held(), Vec::<Direction>::new());
}

#[test]
fn press_sets_only_the_named_flag() {
    let mut controls = Controls::new();
    controls.press(Direction::Left);
    assert_eq!(controls, Controls { up: false, down: false, left: true, right: false });
    controls.press(Direction::Down);
    assert_eq!(controls, Controls { up: false, down: true, left: true, right: false });
    controls.press(Direction::Up);
    controls.press(Direction::Right);
    assert_eq!(controls, Controls { up: true, down: true, left: true, right: true });
}

#[test]
fn release_clears_only_the_named_flag() {
    let mut controls = Controls { up: true, down: true, left: true, right: true };
    controls.release(Direction::Right);
    assert_eq!(controls, Controls { up: true, down: true, left: true, right: false });
    controls.release(Direction::Up);
    assert_eq!(controls, Controls { up: false, down: true, left: true, right: false });
}

#[test]
fn is_held_reads_each_flag() {
    let controls = Controls { up: true, down: false, left: false, right: true };
    assert!(controls.is_held(Direction::Up));
    assert!(!controls.is_held(Direction::Down));
    assert!(!controls.is_held(Direction::Left));
    assert!(controls.is_held(Direction::Right));
}

#[test]
fn release_of_never_pressed_direction_changes_nothing() {
    for d in ALL {
        let mut controls = Controls::new();
        controls.release(d);
        assert_eq!(controls, Controls::new());
    }
    for state in every_state() {
        for d in ALL {
            if !state.is_held(d) {
                let mut controls = state;
                controls.release(d);
                assert_eq!(controls, state);
            }
        }
    }
}

#[test]
fn press_of_held_direction_changes_nothing() {
    for state in every_state() {
        for d in ALL {
            if state.is_held(d) {
                let mut controls = state;
                controls.press(d);
                assert_eq!(controls, state);
            }
        }
    }
}

#[test]
fn second_press_and_second_release_change_nothing() {
    for state in every_state() {
        for d in ALL {
            let mut once = state;
            once.press(d);
            let mut twice = once;
            twice.press(d);
            assert_eq!(twice, once);

            let mut once = state;
            once.release(d);
            let mut twice = once;
            twice.release(d);
            assert_eq!(twice, once);
        }
    }
}

#[test]
fn press_then_release_restores_an_unheld_direction() {
    for state in every_state() {
        for d in ALL {
            if !state.is_held(d) {
                let mut controls = state;
                controls.press(d);
                assert!(controls.is_held(d));
                controls.release(d);
                assert_eq!(controls, state);
            }
        }
    }
}

#[test]
fn held_lists_in_polling_order() {
    let all = Controls { up: true, down: true, left: true, right: true };
    assert_eq!(
        all.held(),
        vec![Direction::Up, Direction::Down, Direction::Left, Direction::Right]
    );
    let some = Controls { up: false, down: true, left: false, right: true };
    assert_eq!(some.held(), vec![Direction::Down, Direction::Right]);
    let mut pressed_backwards = Controls::new();
    pressed_backwards.press(Direction::Right);
    pressed_backwards.press(Direction::Up);
    assert_eq!(pressed_backwards.held(), vec![Direction::Up, Direction::Right]);
}

#[test]
fn held_lists_each_held_direction_once() {
    for state in every_state() {
        let list = state.held();
        for d in ALL {
            let count = list.iter().filter(|e| **e == d).count();
            assert_eq!(count, if state.is_held(d) { 1 } else { 0 });
        }
    }
}

#[test]
fn only_up_pushes_y_by_minus_one() {
    let mut controls = Controls::new();
    controls.press(Direction::Up);
    assert_eq!(controls.held(), vec![Direction::Up]);
    assert_eq!(net_push(&controls, Axis::Y), -1);
    assert_eq!(net_push(&controls, Axis::X), 0);
}

#[test]
fn only_left_leaves_y_alone() {
    let mut controls = Controls::new();
    controls.press(Direction::Left);
    let list = controls.held();
    assert_eq!(list, vec![Direction::Left]);
    assert!(list.iter().all(|d| d.axis() != Axis::Y));
    assert_eq!(net_push(&controls, Axis::X), -1);
    assert_eq!(net_push(&controls, Axis::Y), 0);
}

#[test]
fn pushes_stay_on_the_axes_of_held_directions() {
    for state in every_state() {
        let list = state.held();
        let y_held = state.up || state.down;
        let x_held = state.left || state.right;
        assert_eq!(list.iter().any(|d| d.axis() == Axis::Y), y_held);
        assert_eq!(list.iter().any(|d| d.axis() == Axis::X), x_held);
        let down = if state.down { 1 } else { 0 };
        let up = if state.up { 1 } else { 0 };
        let right = if state.right { 1 } else { 0 };
        let left = if state.left { 1 } else { 0 };
        assert_eq!(net_push(&state, Axis::Y), down - up);
        assert_eq!(net_push(&state, Axis::X), right - left);
    }
}

#[test]
fn pushes_along_one_axis_ignore_the_other_axis() {
    for a in every_state() {
        for b in every_state() {
            let ya: Vec<Direction> = a.held().into_iter().filter(|d| d.axis() == Axis::Y).collect();
            let yb: Vec<Direction> = b.held().into_iter().filter(|d| d.axis() == Axis::Y).collect();
            if a.up == b.up && a.down == b.down {
                assert_eq!(ya, yb);
            }
            let xa: Vec<Direction> = a.held().into_iter().filter(|d| d.axis() == Axis::X).collect();
            let xb: Vec<Direction> = b.held().into_iter().filter(|d| d.axis() == Axis::X).collect();
            if a.left == b.left && a.right == b.right {
                assert_eq!(xa, xb);
            }
        }
    }
}

#[test]
fn opposite_directions_held_together_are_both_applied() {
    let controls = Controls { up: true, down: true, left: false, right: false };
    assert_eq!(controls.held(), vec![Direction::Up, Direction::Down]);
    assert_eq!(net_push(&controls, Axis::Y), 0);
}
