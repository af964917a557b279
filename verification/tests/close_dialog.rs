use archipelago::close_dialog::{CloseCommands, CloseState, CloseWindowState};

#[test]
fn close_request_is_cancelled_until_confirmed() {
    let mut s = CloseState::default();
    assert!(!s.is_dialog_open());
    assert!(s.check_close(true));
    assert!(s.is_dialog_open());
    assert!(!s.is_allowed_to_close());
}

#[test]
fn no_request_no_change() {
    let mut s = CloseState::default();
    assert!(!s.check_close(false));
    assert!(!s.is_dialog_open());
    assert_eq!(
        s.update(false, false, false),
        CloseCommands { cancel_close: false, close: false }
    );
}

#[test]
fn yes_closes_and_later_requests_proceed() {
    let mut s = CloseState::default();
    s.check_close(true);
    assert!(s.show_confirmation_dialog(false, true));
    assert!(!s.is_dialog_open());
    assert!(s.is_allowed_to_close());
    assert!(!s.check_close(true));
    assert!(!s.is_dialog_open());
}

#[test]
fn no_keeps_guard() {
    let mut s = CloseState::default();
    s.check_close(true);
    assert!(!s.show_confirmation_dialog(true, false));
    assert!(!s.is_dialog_open());
    assert!(!s.is_allowed_to_close());
    assert!(s.check_close(true));
    assert!(s.is_dialog_open());
}

#[test]
fn buttons_ignored_while_dialog_hidden() {
    let mut s = CloseState::default();
    assert!(!s.show_confirmation_dialog(false, true));
    assert!(!s.is_allowed_to_close());
}

#[test]
fn both_buttons_yes_wins() {
    let mut s = CloseState::default();
    s.check_close(true);
    assert!(s.show_confirmation_dialog(true, true));
    assert!(s.is_allowed_to_close());
}

#[test]
fn update_frame_sequence() {
    let mut s = CloseState::default();
    assert_eq!(
        s.update(true, false, false),
        CloseCommands { cancel_close: true, close: false }
    );
    assert_eq!(
        s.update(false, false, true),
        CloseCommands { cancel_close: false, close: true }
    );
    assert_eq!(
        s.update(true, false, false),
        CloseCommands { cancel_close: false, close: false }
    );
}

#[test]
fn window_dialog_disabled_never_cancels() {
    let mut s = CloseWindowState::default();
    assert!(!s.check_close(false, true));
    assert!(!s.is_dialog_open());
    assert_eq!(
        s.update(false, true, false, false),
        CloseCommands { cancel_close: false, close: false }
    );
}

#[test]
fn window_dialog_enabled_flow() {
    let mut s = CloseWindowState::default();
    assert!(s.check_close(true, true));
    assert!(s.is_dialog_open());
    assert!(!s.show_confirmation_dialog(true, false));
    assert!(s.check_close(true, true));
    assert!(s.show_confirmation_dialog(false, true));
    assert!(s.is_allowed_to_close());
    assert!(!s.check_close(true, true));
}
