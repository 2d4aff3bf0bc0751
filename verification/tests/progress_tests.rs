use mate_core::gesture::{GestureState, GestureStateMachine, PointerSample};
use mate_core::progress::{progress_permille, progress_visible};
use mate_core::window::Point;

#[test]
fn progress_is_the_scaled_hold_fraction() {
    assert_eq!(progress_permille(0, 1500), 0);
    assert_eq!(progress_permille(500, 1500), 333);
    assert_eq!(progress_permille(750, 1500), 500);
    assert_eq!(progress_permille(1499, 1500), 999);
}

#[test]
fn progress_caps_at_full() {
    assert_eq!(progress_permille(1500, 1500), 1000);
    assert_eq!(progress_permille(20_000, 1500), 1000);
    assert_eq!(progress_permille(u64::MAX, 1), 1000);
}

#[test]
fn huge_holds_do_not_overflow() {
    assert_eq!(progress_permille(u64::MAX - 1, u64::MAX), 999);
}

#[test]
fn indicator_is_visible_exactly_while_engaged() {
    assert!(!progress_visible(&GestureState::NotHolding));
    assert!(progress_visible(&GestureState::Holding { elapsed: 1 }));
    assert!(progress_visible(&GestureState::ReadyToDrag));
    assert!(progress_visible(&GestureState::Dragging {
        initial_cursor: Point { x: 0, y: 0 },
        initial_window: Point { x: 0, y: 0 },
    }));
}

#[test]
fn machine_timer_drives_the_indicator() {
    let mut m = GestureStateMachine::new(1500, String::from("vrma/VRMA_02.vrma"));
    let press = PointerSample {
        pressed: true,
        just_pressed: true,
        just_released: false,
        cursor: Some(Point { x: 0, y: 0 }),
        window_pos: Some(Point { x: 0, y: 0 }),
    };
    let hold = PointerSample { just_pressed: false, ..press };
    let release = PointerSample { pressed: false, just_pressed: false, just_released: true, ..press };

    m.tick(press, 750);
    assert!(progress_visible(&m.state));
    assert_eq!(progress_permille(m.hold_elapsed(), m.threshold), 500);

    m.tick(hold, 750);
    assert_eq!(progress_permille(m.hold_elapsed(), m.threshold), 1000);

    m.tick(release, 16);
    assert!(!progress_visible(&m.state));
    assert_eq!(progress_permille(m.hold_elapsed(), m.threshold), 0);
}
