use plurimus_doom::input::{KeyModifiers, MouseButton, MouseKind, MouseMessage, Position};
use plurimus_doom::mouse_aim::{AimTracker, ENGINE_DX_PER_CELL};

fn mouse(kind: MouseKind, column: u16) -> MouseMessage {
    MouseMessage {
        kind,
        position: Position::new(column, 0),
        modifiers: KeyModifiers::default(),
    }
}

#[test]
fn first_motion_primes_without_turning() {
    let mut tracker = AimTracker::default();
    assert!(tracker.track(&mouse(MouseKind::Moved, 10)).is_none());
}

#[test]
fn motion_scales_cell_delta_into_engine_units() {
    let mut tracker = AimTracker::default();
    tracker.track(&mouse(MouseKind::Moved, 10));

    let dx = tracker.track(&mouse(MouseKind::Moved, 14)).unwrap();
    assert_eq!(dx, 4 * ENGINE_DX_PER_CELL);

    let dx = tracker.track(&mouse(MouseKind::Moved, 9)).unwrap();
    assert_eq!(dx, -5 * ENGINE_DX_PER_CELL);
}

#[test]
fn drag_turns_like_plain_motion() {
    let mut tracker = AimTracker::default();
    tracker.track(&mouse(MouseKind::Drag(MouseButton::Left), 0));

    let dx = tracker
        .track(&mouse(MouseKind::Drag(MouseButton::Left), 2))
        .unwrap();
    assert_eq!(dx, 2 * ENGINE_DX_PER_CELL);
}

#[test]
fn clicks_and_scroll_are_ignored() {
    let mut tracker = AimTracker::default();
    assert!(
        tracker
            .track(&mouse(MouseKind::Down(MouseButton::Left), 0))
            .is_none()
    );
    assert!(tracker.track(&mouse(MouseKind::ScrollUp, 0)).is_none());
}

#[test]
fn engine_units_per_cell() {
    assert_eq!(ENGINE_DX_PER_CELL, 32);
}

#[test]
fn motion_to_the_same_column_does_not_turn() {
    let mut tracker = AimTracker::default();
    tracker.track(&mouse(MouseKind::Moved, 7));
    assert!(tracker.track(&mouse(MouseKind::Moved, 7)).is_none());
    assert_eq!(tracker.track(&mouse(MouseKind::Moved, 8)), Some(32));
}

#[test]
fn clicks_between_motions_do_not_lose_the_last_column() {
    let mut tracker = AimTracker::default();
    tracker.track(&mouse(MouseKind::Moved, 5));
    assert!(tracker.track(&mouse(MouseKind::Down(MouseButton::Left), 40)).is_none());
    assert!(tracker.track(&mouse(MouseKind::Cancel, 40)).is_none());
    assert_eq!(tracker.track(&mouse(MouseKind::Moved, 6)), Some(32));
}

#[test]
fn stream_of_motions_turns_by_the_total_distance() {
    let mut tracker = AimTracker::default();
    let columns = [3u16, 9, 1, 1, 20, 17];
    let mut total = 0i32;
    for column in columns {
        if let Some(dx) = tracker.track(&mouse(MouseKind::Moved, column)) {
            total += dx;
        }
    }
    assert_eq!(total, (17 - 3) * ENGINE_DX_PER_CELL);
}

#[test]
fn extreme_columns_fit_in_engine_units() {
    let mut tracker = AimTracker::default();
    tracker.track(&mouse(MouseKind::Moved, 0));
    assert_eq!(tracker.track(&mouse(MouseKind::Moved, u16::MAX)), Some(65535 * 32));
    assert_eq!(tracker.track(&mouse(MouseKind::Moved, 0)), Some(-65535 * 32));
}
