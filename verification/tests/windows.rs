use archipelago::windows::{
    port_from_slider, port_slider_value, AboutWindowState, DistanceReading, DistanceWindowState,
    MotorWindowState, NO_CONFIDENCE_READING_VALUE, NO_DISTANCE_READING_VALUE,
};

#[test]
fn port_slider_round_trip() {
    for port in 0usize..=20 {
        let v = port_slider_value(port);
        assert_eq!(v, port as i32 + 1);
        assert_eq!(port_from_slider(v), port);
    }
    assert_eq!(port_slider_value(0), 1);
    assert_eq!(port_from_slider(21), 20);
    assert_eq!(port_from_slider(0), usize::MAX);
}

#[test]
fn about_defaults_and_license_toggle() {
    let mut a = AboutWindowState::default();
    assert!(!a.open && !a.license_open);
    a.toggle_license();
    assert!(a.license_open);
    a.toggle_license();
    assert!(!a.license_open);
}

#[test]
fn new_windows_have_distinct_random_ids() {
    let m1 = MotorWindowState::default();
    let m2 = MotorWindowState::default();
    assert!(m1.open && m1.port == 0);
    assert_ne!(m1.id, m2.id);
    let d1 = DistanceWindowState::default();
    let d2 = DistanceWindowState::default();
    assert_ne!(d1.id, d2.id);
    assert!(d1.open && d1.distance_enabled && d1.confidence_enabled && !d1.initializing);
}

fn window(distance: bool, confidence: bool, initializing: bool) -> DistanceWindowState {
    DistanceWindowState {
        id: 1,
        open: true,
        port: 0,
        distance_enabled: distance,
        confidence_enabled: confidence,
        initializing,
    }
}

#[test]
fn disabled_values_report_markers() {
    let mut r = DistanceReading { distance: 500, confidence: 30, status: 0x82 };
    window(false, false, true).apply_settings(&mut r);
    assert_eq!(r, DistanceReading { distance: 9999, confidence: 10, status: 0x00 });
    assert_eq!(r.distance, NO_DISTANCE_READING_VALUE);
    assert_eq!(r.confidence, NO_CONFIDENCE_READING_VALUE);
}

#[test]
fn reenabled_values_start_at_maximum() {
    let mut r = DistanceReading { distance: 9999, confidence: 10, status: 0x00 };
    window(true, true, false).apply_settings(&mut r);
    assert_eq!(r, DistanceReading { distance: 2000, confidence: 63, status: 0x82 });
    let before = r;
    window(true, true, false).apply_settings(&mut r);
    assert_eq!(r, before);
}

#[test]
fn enabled_values_kept() {
    let mut r = DistanceReading { distance: 123, confidence: 45, status: 7 };
    window(true, true, false).apply_settings(&mut r);
    assert_eq!(r, DistanceReading { distance: 123, confidence: 45, status: 0x82 });
}
