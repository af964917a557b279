use archipelago::prefs::{AngleUnits, LengthUnits, TimeUnits, UnitPrefs};

#[test]
fn default_units() {
    let u = UnitPrefs::default();
    assert_eq!(u.length, LengthUnits::Inches);
    assert_eq!(u.time, TimeUnits::Seconds);
    assert_eq!(u.angle, AngleUnits::Degrees);
    assert_eq!(u.get_length_units_as_string(), "\"");
    assert_eq!(u.get_time_units_as_string(), "s");
    assert_eq!(u.get_rotation_units_as_string(), "degrees");
}

#[test]
fn all_labels() {
    let mut u = UnitPrefs::default();
    u.angle = AngleUnits::Radians;
    assert_eq!(u.get_rotation_units_as_string(), "radians");
    u.angle = AngleUnits::Rotations;
    assert_eq!(u.get_rotation_units_as_string(), "rotations");
    u.time = TimeUnits::Milliseconds;
    assert_eq!(u.get_time_units_as_string(), "ms");
    u.time = TimeUnits::Minutes;
    assert_eq!(u.get_time_units_as_string(), "min");
    u.length = LengthUnits::Meters;
    assert_eq!(u.get_length_units_as_string(), "m");
    u.length = LengthUnits::Centimeters;
    assert_eq!(u.get_length_units_as_string(), "cm");
    u.length = LengthUnits::Feet;
    assert_eq!(u.get_length_units_as_string(), "'");
}
