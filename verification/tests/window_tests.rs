use mate_core::window::{
    Monitor, MoveWindowEvent, Point, ScreenBounds, ScreenBoundsTracker, WindowPositioner,
};

fn three_monitors() -> Vec<Monitor> {
    vec![
        Monitor { x: 0, y: 0, width: 1920, height: 1080 },
        Monitor { x: 1920, y: 0, width: 1920, height: 1080 },
        Monitor { x: 0, y: 1080, width: 1920, height: 1080 },
    ]
}

#[test]
fn union_bounds_of_three_monitors() {
    let mut tracker = ScreenBoundsTracker::new();
    let bounds = tracker.try_initialize(&three_monitors(), 800, 600);
    assert_eq!(
        bounds,
        Some(ScreenBounds {
            min_x: 0,
            max_x: 3840,
            min_y: 0,
            max_y: 2160,
            window_width: 800,
            window_height: 600,
        })
    );
}

#[test]
fn request_beyond_right_edge_clamps() {
    let mut tracker = ScreenBoundsTracker::new();
    let bounds = tracker.try_initialize(&three_monitors(), 800, 600);
    let applied = WindowPositioner::apply(&MoveWindowEvent { x: 4000, y: 100 }, &bounds);
    assert_eq!(applied, Some(Point { x: 3040, y: 100 }));
}

#[test]
fn request_before_origin_clamps_to_minimum() {
    let mut tracker = ScreenBoundsTracker::new();
    let bounds = tracker.try_initialize(&three_monitors(), 800, 600);
    let applied = WindowPositioner::apply(&MoveWindowEvent { x: -250, y: -9999 }, &bounds);
    assert_eq!(applied, Some(Point { x: 0, y: 0 }));
}

#[test]
fn request_inside_bounds_is_unchanged() {
    let mut tracker = ScreenBoundsTracker::new();
    let bounds = tracker.try_initialize(&three_monitors(), 800, 600);
    let applied = WindowPositioner::apply(&MoveWindowEvent { x: 1000, y: 700 }, &bounds);
    assert_eq!(applied, Some(Point { x: 1000, y: 700 }));
}

#[test]
fn negative_monitor_origins_are_respected() {
    let monitors = vec![
        Monitor { x: -1920, y: -1080, width: 1920, height: 1080 },
        Monitor { x: 0, y: 0, width: 1920, height: 1080 },
    ];
    let mut tracker = ScreenBoundsTracker::new();
    let bounds = tracker.try_initialize(&monitors, 400, 300);
    assert_eq!(
        bounds,
        Some(ScreenBounds {
            min_x: -1920,
            max_x: 1920,
            min_y: -1080,
            max_y: 1080,
            window_width: 400,
            window_height: 300,
        })
    );
    let applied = WindowPositioner::apply(&MoveWindowEvent { x: -5000, y: 2000 }, &bounds);
    assert_eq!(applied, Some(Point { x: -1920, y: 780 }));
}

#[test]
fn empty_monitor_list_is_not_ready() {
    let mut tracker = ScreenBoundsTracker::new();
    assert_eq!(tracker.try_initialize(&Vec::new(), 800, 600), None);
    assert_eq!(tracker.bounds(), None);
}

#[test]
fn moves_are_dropped_while_bounds_unknown() {
    let applied = WindowPositioner::apply(&MoveWindowEvent { x: 10, y: 10 }, &None);
    assert_eq!(applied, None);
}

#[test]
fn initialization_happens_once() {
    let mut tracker = ScreenBoundsTracker::new();
    let first = tracker.try_initialize(&three_monitors(), 800, 600);
    let other_monitors = vec![Monitor { x: 7, y: 7, width: 5, height: 5 }];
    let second = tracker.try_initialize(&other_monitors, 123, 45);
    assert_eq!(second, first);
    assert_eq!(tracker.bounds(), first);
}

#[test]
fn retry_after_not_ready_succeeds() {
    let mut tracker = ScreenBoundsTracker::new();
    assert_eq!(tracker.try_initialize(&Vec::new(), 800, 600), None);
    let bounds = tracker.try_initialize(&three_monitors(), 800, 600);
    assert!(bounds.is_some());
    assert_eq!(bounds.unwrap().max_x, 3840);
}

#[test]
fn last_request_of_a_tick_wins() {
    let mut tracker = ScreenBoundsTracker::new();
    let bounds = tracker.try_initialize(&three_monitors(), 800, 600);
    let requests = vec![
        MoveWindowEvent { x: 100, y: 100 },
        MoveWindowEvent { x: 4000, y: 100 },
        MoveWindowEvent { x: 500, y: 600 },
    ];
    let landed = WindowPositioner::apply_all(&requests, &bounds);
    assert_eq!(landed, Some(Point { x: 500, y: 600 }));
}

#[test]
fn no_requests_means_no_movement() {
    let mut tracker = ScreenBoundsTracker::new();
    let bounds = tracker.try_initialize(&three_monitors(), 800, 600);
    assert_eq!(WindowPositioner::apply_all(&Vec::new(), &bounds), None);
}
