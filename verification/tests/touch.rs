use archipelago::display::touch::{
    DisplayInput, DisplayInputKind, PointerInput, PointerPosition, TouchState,
};

fn at(x: i16, y: i16, on_display: bool) -> Option<PointerPosition> {
    Some(PointerPosition { coords: [x, y], on_display })
}

fn press(pos: Option<PointerPosition>) -> PointerInput {
    PointerInput { pressed: true, released: false, primary_down: true, position: pos }
}

fn hold(pos: Option<PointerPosition>) -> PointerInput {
    PointerInput { pressed: false, released: false, primary_down: true, position: pos }
}

fn release(pos: Option<PointerPosition>) -> PointerInput {
    PointerInput { pressed: false, released: true, primary_down: false, position: pos }
}

#[test]
fn new_touch_state_is_at_rest() {
    let t = TouchState::new();
    assert!(!t.is_mouse_down);
    assert_eq!(t.num_clicks, 0);
    assert_eq!(t.mouse_coords, [0, 0]);
}

#[test]
fn press_on_display_counts_a_click() {
    let mut t = TouchState::new();
    let sent = t.handle_input(&press(at(10, 20, true))).unwrap();
    assert!(t.is_mouse_down);
    assert_eq!(t.num_clicks, 1);
    assert_eq!(t.mouse_coords, [10, 20]);
    assert!(sent.is_mouse_down);
    assert_eq!(sent.num_clicks, 1);
    assert_eq!(sent.mouse_coords, [10, 20]);
}

#[test]
fn press_off_display_ignored() {
    let mut t = TouchState::new();
    assert!(t.handle_input(&press(at(10, 20, false))).is_none());
    assert!(t.handle_input(&press(None)).is_none());
    assert!(!t.is_mouse_down);
    assert_eq!(t.num_clicks, 0);
}

#[test]
fn hold_sends_only_on_move() {
    let mut t = TouchState::new();
    t.handle_input(&press(at(1, 1, true)));
    assert!(t.handle_input(&hold(at(1, 1, true))).is_none());
    let s = t.handle_input(&hold(at(2, 1, false))).unwrap();
    assert_eq!(s.mouse_coords, [2, 1]);
    assert_eq!(s.num_clicks, 1);
    assert!(t.handle_input(&hold(None)).is_none());
}

#[test]
fn release_uses_last_point_without_pointer() {
    let mut t = TouchState::new();
    t.handle_input(&press(at(5, 6, true)));
    let s = t.handle_input(&release(None)).unwrap();
    assert!(!s.is_mouse_down);
    assert_eq!(s.mouse_coords, [5, 6]);
    assert_eq!(s.num_clicks, 1);
    // a second release does nothing
    assert!(t.handle_input(&release(at(9, 9, true))).is_none());
}

#[test]
fn click_counter_wraps() {
    let mut t = TouchState { is_mouse_down: false, num_clicks: u32::MAX, mouse_coords: [0, 0] };
    t.handle_input(&press(at(0, 0, true)));
    assert_eq!(t.num_clicks, 0);
}

#[test]
fn counted_events_press_release_hold() {
    let mut t = TouchState::new();
    assert_eq!(
        t.handle_input_counted(&press(at(3, 4, true))),
        Some(DisplayInput { kind: DisplayInputKind::Press, press_count: 1, release_count: 0, x: 3, y: 4 })
    );
    assert_eq!(
        t.handle_input_counted(&hold(at(7, 4, true))),
        Some(DisplayInput { kind: DisplayInputKind::Hold, press_count: 1, release_count: 0, x: 7, y: 4 })
    );
    assert_eq!(
        t.handle_input_counted(&release(at(8, 8, true))),
        Some(DisplayInput { kind: DisplayInputKind::Release, press_count: 1, release_count: 1, x: 8, y: 8 })
    );
    assert_eq!(t.handle_input_counted(&hold(at(1, 1, true))), None);
}

#[test]
fn relayed_event_is_hold_with_lagging_release() {
    let t = TouchState { is_mouse_down: true, num_clicks: 3, mouse_coords: [100, 200] };
    assert_eq!(
        t.to_display_input(),
        DisplayInput { kind: DisplayInputKind::Hold, press_count: 3, release_count: 2, x: 100, y: 200 }
    );
    let z = TouchState::new();
    assert_eq!(z.to_display_input().release_count, u32::MAX);
}
