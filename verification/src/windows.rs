//! State of the small tool windows: the about box, the motor windows and the
//! distance-sensor windows.
//!
//! Each motor or distance window gets a random id, under which the window
//! system keeps it apart from the others, and sits on a smart port. The port
//! is shown to the user numbered from 1 (a slider over 1 to 21) and kept
//! numbered from 0.

use vstd::prelude::*;

verus! {

/// Draws a window id from the operating system's generator, by
/// `rand::TryRng::try_next_u64` on `rand::rngs::SysRng`, which returns an
/// error instead of panicking. Nothing is stated of the value: any `u64` may
/// come back, two calls may give the same or different ids, and the draw may
/// fail.
#[verifier::external_body]
fn try_random_window_id() -> (id: Option<u64>) {
    rand::TryRng::try_next_u64(&mut rand::rngs::SysRng).ok()
}

/// A fresh window id: a random draw, or 0 when the system generator fails.
fn fresh_window_id() -> (id: u64) {
    match try_random_window_id() {
        Some(id) => id,
        None => 0,
    }
}

/// The slider value that shows a port: the port numbered from 1.
pub open spec fn slider_of(port: usize) -> int {
    (port as i32) + 1
}

/// The slider value shown for a port, which is numbered from 0.
pub fn port_slider_value(port: usize) -> (value: i32)
    requires
        (port as i32) < i32::MAX,
    ensures
        value == slider_of(port),
        port <= i32::MAX ==> value == port + 1,
{
    port as i32 + 1
}

/// The port that a slider value selects.
pub fn port_from_slider(value: i32) -> (port: usize)
    requires
        value > i32::MIN,
    ensures
        port == (value - 1) as usize,
        value >= 1 ==> port == value - 1,
{
    (value - 1) as usize
}

/// The ports 0 to 20 and the slider values 1 to 21 correspond one to one.
pub proof fn lemma_port_slider_round_trip(port: usize, value: i32)
    ensures
        port <= 20 ==> slider_of(port) == port + 1 && (slider_of(port) - 1) as usize == port,
        1 <= value <= 21 ==> slider_of((value - 1) as usize) == value,
{
}

/// The about box and its license window.
#[derive(Debug, Clone, Copy)]
pub struct AboutWindowState {
    pub open: bool,
    pub license_open: bool,
}

impl Default for AboutWindowState {
    /// Both windows closed.
    fn default() -> (s: AboutWindowState)
        ensures
            !s.open,
            !s.license_open,
    {
        AboutWindowState { open: false, license_open: false }
    }
}

impl AboutWindowState {
    /// The license button shows the license window, or hides it again.
    pub fn toggle_license(&mut self)
        ensures
            final(self).license_open == !old(self).license_open,
            final(self).open == old(self).open,
    {
        self.license_open = !self.license_open;
    }
}

/// A motor window.
#[derive(Debug, Clone, Copy)]
pub struct MotorWindowState {
    pub id: u64,
    pub open: bool,
    pub port: usize,
}

impl Default for MotorWindowState {
    /// A fresh, open window on port 0 with a random id.
    fn default() -> (s: MotorWindowState)
        ensures
            s.open,
            s.port == 0,
    {
        MotorWindowState { id: fresh_window_id(), open: true, port: 0 }
    }
}

/// The distance a sensor reports when it measures nothing.
pub const NO_DISTANCE_READING_VALUE: u32 = 9999;

/// The confidence a sensor reports when it has none.
pub const NO_CONFIDENCE_READING_VALUE: u32 = 10;

/// The distance a re-enabled reading starts from: the slider's maximum.
pub const DISTANCE_ON_ENABLE: u32 = 2000;

/// The confidence a re-enabled reading starts from: the slider's maximum.
pub const CONFIDENCE_ON_ENABLE: u32 = 63;

/// The status of a sensor that is still initializing.
pub const STATUS_INITIALIZING: u8 = 0x00;

/// The status of a sensor that runs without problems.
pub const STATUS_RUNNING: u8 = 0x82;

/// The values of a distance-sensor reading that the window's switches govern.
#[derive(PartialEq, Eq, Structural, Debug, Clone, Copy)]
pub struct DistanceReading {
    pub distance: u32,
    pub confidence: u32,
    pub status: u8,
}

/// A distance-sensor window.
#[derive(Debug, Clone, Copy)]
pub struct DistanceWindowState {
    pub id: u64,
    pub open: bool,
    pub port: usize,
    pub distance_enabled: bool,
    pub confidence_enabled: bool,
    pub initializing: bool,
}

impl Default for DistanceWindowState {
    /// A fresh, open window on port 0 with a random id, reporting distance
    /// and confidence, and a running sensor.
    fn default() -> (s: DistanceWindowState)
        ensures
            s.open,
            s.port == 0,
            s.distance_enabled,
            s.confidence_enabled,
            !s.initializing,
    {
        DistanceWindowState {
            id: fresh_window_id(),
            open: true,
            port: 0,
            distance_enabled: true,
            confidence_enabled: true,
            initializing: false,
        }
    }
}

impl DistanceWindowState {
    /// The reading after the window's switches are applied. A disabled
    /// value reports its "no reading" marker; an enabled value that still
    /// holds the marker starts again from the slider's maximum; the status
    /// tells whether the sensor is initializing.
    pub open spec fn settled(self, r: DistanceReading) -> DistanceReading {
        DistanceReading {
            distance: if !self.distance_enabled {
                NO_DISTANCE_READING_VALUE
            } else if r.distance == NO_DISTANCE_READING_VALUE {
                DISTANCE_ON_ENABLE
            } else {
                r.distance
            },
            confidence: if !self.confidence_enabled {
                NO_CONFIDENCE_READING_VALUE
            } else if r.confidence == NO_CONFIDENCE_READING_VALUE {
                CONFIDENCE_ON_ENABLE
            } else {
                r.confidence
            },
            status: if self.initializing { STATUS_INITIALIZING } else { STATUS_RUNNING },
        }
    }

    /// Applies the window's switches to a reading.
    pub fn apply_settings(&self, reading: &mut DistanceReading)
        ensures
            *final(reading) == self.settled(*old(reading)),
            final(reading).status == (if self.initializing { 0x00u8 } else { 0x82u8 }),
            final(reading).distance == (if !self.distance_enabled {
                9999u32
            } else if old(reading).distance == 9999 {
                2000u32
            } else {
                old(reading).distance
            }),
            final(reading).confidence == (if !self.confidence_enabled {
                10u32
            } else if old(reading).confidence == 10 {
                63u32
            } else {
                old(reading).confidence
            }),
    {
        if !self.distance_enabled {
            reading.distance = NO_DISTANCE_READING_VALUE;
        } else if reading.distance == NO_DISTANCE_READING_VALUE {
            reading.distance = DISTANCE_ON_ENABLE;
        }
        if !self.confidence_enabled {
            reading.confidence = NO_CONFIDENCE_READING_VALUE;
        } else if reading.confidence == NO_CONFIDENCE_READING_VALUE {
            reading.confidence = CONFIDENCE_ON_ENABLE;
        }
        if self.initializing {
            reading.status = STATUS_INITIALIZING;
        } else {
            reading.status = STATUS_RUNNING;
        }
    }
}

/// Applying the switches a second time changes nothing.
pub proof fn lemma_settings_idempotent(w: DistanceWindowState, r: DistanceReading)
    ensures
        w.settled(w.settled(r)) == w.settled(r),
{
}

/// An enabled value never reports its "no reading" marker, a disabled one
/// always does, and an enabled value other than the marker is kept.
pub proof fn lemma_settings_markers(w: DistanceWindowState, r: DistanceReading)
    ensures
        w.distance_enabled <==> w.settled(r).distance != NO_DISTANCE_READING_VALUE,
        w.confidence_enabled <==> w.settled(r).confidence != NO_CONFIDENCE_READING_VALUE,
        w.distance_enabled && r.distance != NO_DISTANCE_READING_VALUE ==> w.settled(r).distance == r.distance,
        w.confidence_enabled && r.confidence != NO_CONFIDENCE_READING_VALUE ==> w.settled(r).confidence
            == r.confidence,
{
}


/// Each value of a settled reading depends only on its own switch and its
/// own old value: the status is 0x00 exactly while the sensor is set as
/// initializing and 0x82 otherwise, whatever the other switches; a disabled
/// distance reads 9999 and a disabled confidence 10; an enabled value that
/// reads its marker restarts at 2000 (distance) or 63 (confidence), and any
/// other enabled value is kept.
pub proof fn lemma_settled_values(w: DistanceWindowState, r: DistanceReading)
    ensures
        w.settled(r).status == (if w.initializing { 0x00u8 } else { 0x82u8 }),
        !w.distance_enabled ==> w.settled(r).distance == 9999,
        w.distance_enabled && r.distance == 9999 ==> w.settled(r).distance == 2000,
        w.distance_enabled && r.distance != 9999 ==> w.settled(r).distance == r.distance,
        !w.confidence_enabled ==> w.settled(r).confidence == 10,
        w.confidence_enabled && r.confidence == 10 ==> w.settled(r).confidence == 63,
        w.confidence_enabled && r.confidence != 10 ==> w.settled(r).confidence == r.confidence,
        forall|v: DistanceWindowState|
            v.distance_enabled == w.distance_enabled ==> #[trigger] v.settled(r).distance == w.settled(r).distance,
        forall|v: DistanceWindowState|
            v.confidence_enabled == w.confidence_enabled ==> #[trigger] v.settled(r).confidence
                == w.settled(r).confidence,
        forall|v: DistanceWindowState|
            v.initializing == w.initializing ==> #[trigger] v.settled(r).status == w.settled(r).status,
{
}

} // verus!
