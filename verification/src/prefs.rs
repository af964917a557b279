//! Unit preferences: which length, time and angle units the user picked, and
//! the labels that the windows show for them.

use vstd::prelude::*;

verus! {

/// Units in which lengths are displayed.
#[derive(PartialEq, Eq, Structural, Debug, Clone, Copy)]
pub enum LengthUnits {
    Meters,
    Inches,
    Feet,
    Centimeters,
}

/// Units in which durations are displayed.
#[derive(PartialEq, Eq, Structural, Debug, Clone, Copy)]
pub enum TimeUnits {
    Milliseconds,
    Seconds,
    Minutes,
}

/// Units in which angles are displayed.
#[derive(PartialEq, Eq, Structural, Debug, Clone, Copy)]
pub enum AngleUnits {
    Radians,
    Degrees,
    Rotations,
}

/// The unit choices of the user.
#[derive(PartialEq, Eq, Structural, Debug, Clone, Copy)]
pub struct UnitPrefs {
    pub length: LengthUnits,
    pub time: TimeUnits,
    pub angle: AngleUnits,
}

/// The label shown for an angle unit.
pub open spec fn angle_label(a: AngleUnits) -> Seq<char> {
    match a {
        AngleUnits::Degrees => "degrees"@,
        AngleUnits::Radians => "radians"@,
        AngleUnits::Rotations => "rotations"@,
    }
}

/// The label shown for a time unit.
pub open spec fn time_label(t: TimeUnits) -> Seq<char> {
    match t {
        TimeUnits::Milliseconds => "ms"@,
        TimeUnits::Seconds => "s"@,
        TimeUnits::Minutes => "min"@,
    }
}

/// The label shown for a length unit.
pub open spec fn length_label(l: LengthUnits) -> Seq<char> {
    match l {
        LengthUnits::Centimeters => "cm"@,
        LengthUnits::Feet => "'"@,
        LengthUnits::Inches => "\""@,
        LengthUnits::Meters => "m"@,
    }
}

impl Default for UnitPrefs {
    /// Inches, seconds and degrees.
    fn default() -> (u: UnitPrefs)
        ensures
            u.length == LengthUnits::Inches,
            u.time == TimeUnits::Seconds,
            u.angle == AngleUnits::Degrees,
    {
        UnitPrefs { length: LengthUnits::Inches, time: TimeUnits::Seconds, angle: AngleUnits::Degrees }
    }
}

impl UnitPrefs {
    /// The name of the selected angle unit, such as `degrees`.
    pub fn get_rotation_units_as_string(&self) -> (s: String)
        ensures
            s@ == angle_label(self.angle),
    {
        match self.angle {
            AngleUnits::Degrees => "degrees".to_owned(),
            AngleUnits::Radians => "radians".to_owned(),
            AngleUnits::Rotations => "rotations".to_owned(),
        }
    }

    /// The abbreviation of the selected time unit, such as `ms`.
    pub fn get_time_units_as_string(&self) -> (s: String)
        ensures
            s@ == time_label(self.time),
    {
        match self.time {
            TimeUnits::Milliseconds => "ms".to_owned(),
            TimeUnits::Seconds => "s".to_owned(),
            TimeUnits::Minutes => "min".to_owned(),
        }
    }

    /// The symbol of the selected length unit: `cm`, `'` (feet), `"` (inches) or `m`.
    pub fn get_length_units_as_string(&self) -> (s: String)
        ensures
            s@ == length_label(self.length),
    {
        match self.length {
            LengthUnits::Centimeters => "cm".to_owned(),
            LengthUnits::Feet => "'".to_owned(),
            LengthUnits::Inches => "\"".to_owned(),
            LengthUnits::Meters => "m".to_owned(),
        }
    }
}


/// The labels, character by character: `degrees`, `radians`, `rotations`;
/// `ms`, `s`, `min`; `cm`, `'` for feet, `"` for inches, `m`.
pub proof fn lemma_labels()
    ensures
        angle_label(AngleUnits::Degrees) == seq!['d', 'e', 'g', 'r', 'e', 'e', 's'],
        angle_label(AngleUnits::Radians) == seq!['r', 'a', 'd', 'i', 'a', 'n', 's'],
        angle_label(AngleUnits::Rotations) == seq!['r', 'o', 't', 'a', 't', 'i', 'o', 'n', 's'],
        time_label(TimeUnits::Milliseconds) == seq!['m', 's'],
        time_label(TimeUnits::Seconds) == seq!['s'],
        time_label(TimeUnits::Minutes) == seq!['m', 'i', 'n'],
        length_label(LengthUnits::Centimeters) == seq!['c', 'm'],
        length_label(LengthUnits::Feet) == seq!['\''],
        length_label(LengthUnits::Inches) == seq!['"'],
        length_label(LengthUnits::Meters) == seq!['m'],
{
    reveal_strlit("degrees");
    reveal_strlit("radians");
    reveal_strlit("rotations");
    reveal_strlit("ms");
    reveal_strlit("s");
    reveal_strlit("min");
    reveal_strlit("cm");
    reveal_strlit("'");
    reveal_strlit("\"");
    reveal_strlit("m");
}

} // verus!
