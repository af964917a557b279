//! Touch input on the emulated brain display.
//!
//! The window system reports, per frame, whether the primary pointer button
//! was pressed or released, whether it is held, and where the pointer is,
//! already converted to display pixel coordinates, together with whether it
//! lies on the display at all. From that the touch state advances and, where
//! something changed, a touch event is sent on to the simulator.

use vstd::prelude::*;

verus! {

/// What the simulator is told about a touch.
#[derive(PartialEq, Eq, Structural, Debug, Clone, Copy)]
pub enum DisplayInputKind {
    Press,
    Release,
    Hold,
}

/// One touch event for the simulator.
#[derive(PartialEq, Eq, Structural, Debug, Clone, Copy)]
pub struct DisplayInput {
    pub kind: DisplayInputKind,
    pub press_count: u32,
    pub release_count: u32,
    pub x: i16,
    pub y: i16,
}

/// Where the pointer is: its display coordinates and whether it lies on
/// the drawn display.
#[derive(Debug, Clone, Copy)]
pub struct PointerPosition {
    pub coords: [i16; 2],
    pub on_display: bool,
}

/// The pointer input of one frame.
#[derive(Debug, Clone, Copy)]
pub struct PointerInput {
    /// The primary button went down in this frame.
    pub pressed: bool,
    /// The primary button went up in this frame.
    pub released: bool,
    /// The primary button is held.
    pub primary_down: bool,
    /// The latest pointer position, if the pointer is known.
    pub position: Option<PointerPosition>,
}

/// The touch state of the display.
#[derive(Debug, Clone, Copy)]
pub struct TouchState {
    pub is_mouse_down: bool,
    pub num_clicks: u32,
    pub mouse_coords: [i16; 2],
}

/// The click counter after one more press; it wraps around.
pub open spec fn next_count(n: u32) -> u32 {
    if n == u32::MAX { 0 } else { (n + 1) as u32 }
}

/// The click counter one press back; it wraps around.
pub open spec fn prev_count(n: u32) -> u32 {
    if n == 0 { u32::MAX } else { (n - 1) as u32 }
}

/// Whether two display points differ.
pub open spec fn coords_differ(a: [i16; 2], b: [i16; 2]) -> bool {
    a[0] != b[0] || a[1] != b[1]
}

/// How the kind of step that a frame makes is decided.
pub enum TouchStep {
    /// A press on the display.
    Press([i16; 2]),
    /// The end of a touch, at the given point.
    Release([i16; 2]),
    /// The held pointer moved to a new point.
    Move([i16; 2]),
    /// Nothing to report.
    Idle,
}

impl TouchState {
    /// Which step the pointer input of a frame makes from this state. A
    /// press counts only on the display; a release only ends a touch that
    /// began with such a press, at the pointer if it is known and else where
    /// the touch was last; a held pointer counts only when it moved.
    pub open spec fn step_kind(self, input: PointerInput) -> TouchStep {
        if input.pressed {
            match input.position {
                Some(p) => if p.on_display { TouchStep::Press(p.coords) } else { TouchStep::Idle },
                None => TouchStep::Idle,
            }
        } else if input.released && self.is_mouse_down {
            match input.position {
                Some(p) => TouchStep::Release(p.coords),
                None => TouchStep::Release(self.mouse_coords),
            }
        } else if input.primary_down && self.is_mouse_down {
            match input.position {
                Some(p) => if coords_differ(p.coords, self.mouse_coords) {
                    TouchStep::Move(p.coords)
                } else {
                    TouchStep::Idle
                },
                None => TouchStep::Idle,
            }
        } else {
            TouchStep::Idle
        }
    }

    /// The touch state after a step.
    pub open spec fn after(self, step: TouchStep) -> TouchState {
        match step {
            TouchStep::Press(c) => TouchState {
                is_mouse_down: true,
                num_clicks: next_count(self.num_clicks),
                mouse_coords: c,
            },
            TouchStep::Release(c) => TouchState { is_mouse_down: false, mouse_coords: c, ..self },
            TouchStep::Move(c) => TouchState { mouse_coords: c, ..self },
            TouchStep::Idle => self,
        }
    }

    /// The event sent for a step when press and release counters are kept
    /// apart: a press carries the new press count and the old count as
    /// release count, a release carries equal counts, a move a release count
    /// one behind.
    pub open spec fn counted_event(self, step: TouchStep) -> Option<DisplayInput> {
        match step {
            TouchStep::Press(c) => Some(DisplayInput {
                kind: DisplayInputKind::Press,
                press_count: next_count(self.num_clicks),
                release_count: self.num_clicks,
                x: c[0],
                y: c[1],
            }),
            TouchStep::Release(c) => Some(DisplayInput {
                kind: DisplayInputKind::Release,
                press_count: self.num_clicks,
                release_count: self.num_clicks,
                x: c[0],
                y: c[1],
            }),
            TouchStep::Move(c) => Some(DisplayInput {
                kind: DisplayInputKind::Hold,
                press_count: self.num_clicks,
                release_count: prev_count(self.num_clicks),
                x: c[0],
                y: c[1],
            }),
            TouchStep::Idle => None,
        }
    }

    /// The event that is relayed to the simulator for a touch state.
    pub open spec fn relayed(self) -> DisplayInput {
        DisplayInput {
            kind: DisplayInputKind::Hold,
            press_count: self.num_clicks,
            release_count: prev_count(self.num_clicks),
            x: self.mouse_coords[0],
            y: self.mouse_coords[1],
        }
    }

    /// The resting state: not touched, no clicks, at the origin.
    pub fn new() -> (t: TouchState)
        ensures
            !t.is_mouse_down,
            t.num_clicks == 0,
            t.mouse_coords[0] == 0 && t.mouse_coords[1] == 0,
    {
        TouchState { is_mouse_down: false, num_clicks: 0, mouse_coords: [0, 0] }
    }

    fn classify(&self, input: &PointerInput) -> (step: TouchStep)
        ensures
            step == self.step_kind(*input),
    {
        if input.pressed {
            match input.position {
                Some(p) => if p.on_display { TouchStep::Press(p.coords) } else { TouchStep::Idle },
                None => TouchStep::Idle,
            }
        } else if input.released && self.is_mouse_down {
            match input.position {
                Some(p) => TouchStep::Release(p.coords),
                None => TouchStep::Release(self.mouse_coords),
            }
        } else if input.primary_down && self.is_mouse_down {
            match input.position {
                Some(p) => {
                    if p.coords[0] != self.mouse_coords[0] || p.coords[1] != self.mouse_coords[1] {
                        TouchStep::Move(p.coords)
                    } else {
                        TouchStep::Idle
                    }
                },
                None => TouchStep::Idle,
            }
        } else {
            TouchStep::Idle
        }
    }

    fn apply(&mut self, step: &TouchStep)
        ensures
            *final(self) == old(self).after(*step),
    {
        match step {
            TouchStep::Press(c) => {
                self.is_mouse_down = true;
                self.num_clicks = self.num_clicks.wrapping_add(1);
                self.mouse_coords = *c;
            },
            TouchStep::Release(c) => {
                self.is_mouse_down = false;
                self.mouse_coords = *c;
            },
            TouchStep::Move(c) => {
                self.mouse_coords = *c;
            },
            TouchStep::Idle => {},
        }
    }

    /// Advances the touch state by one frame of pointer input. Where the
    /// frame pressed on the display, ended a touch, or moved a held touch,
    /// the new touch state is returned, to be relayed to the simulator.
    pub fn handle_input(&mut self, input: &PointerInput) -> (sent: Option<TouchState>)
        ensures
            *final(self) == old(self).after(old(self).step_kind(*input)),
            sent is Some <==> old(self).step_kind(*input) != TouchStep::Idle,
            sent matches Some(t) ==> t == *final(self),
            !input.pressed && !input.released && input.primary_down && old(self).is_mouse_down
                ==> match input.position {
                Some(p) => (p.coords[0] != old(self).mouse_coords[0] || p.coords[1]
                    != old(self).mouse_coords[1]) ==> (sent is Some && final(self).mouse_coords[0]
                    == p.coords[0] && final(self).mouse_coords[1] == p.coords[1]),
                None => true,
            },
    {
        let step = self.classify(input);
        self.apply(&step);
        match step {
            TouchStep::Idle => None,
            _ => Some(*self),
        }
    }

    /// Advances the touch state by one frame of pointer input and returns the
    /// event to send, with separate press and release counters: a press with
    /// the new press count and the old count as release count, a release
    /// with both counts equal, or a hold with the release count one behind.
    pub fn handle_input_counted(&mut self, input: &PointerInput) -> (sent: Option<DisplayInput>)
        ensures
            *final(self) == old(self).after(old(self).step_kind(*input)),
            sent == old(self).counted_event(old(self).step_kind(*input)),
            match sent {
                Some(e) => e.x == final(self).mouse_coords[0] && e.y == final(self).mouse_coords[1],
                None => true,
            },
    {
        let step = self.classify(input);
        let release_count: u32 = self.num_clicks;
        self.apply(&step);
        match step {
            TouchStep::Press(c) => Some(DisplayInput {
                kind: DisplayInputKind::Press,
                press_count: self.num_clicks,
                release_count,
                x: c[0],
                y: c[1],
            }),
            TouchStep::Release(c) => Some(DisplayInput {
                kind: DisplayInputKind::Release,
                press_count: self.num_clicks,
                release_count: self.num_clicks,
                x: c[0],
                y: c[1],
            }),
            TouchStep::Move(c) => Some(DisplayInput {
                kind: DisplayInputKind::Hold,
                press_count: self.num_clicks,
                release_count: self.num_clicks.wrapping_sub(1),
                x: c[0],
                y: c[1],
            }),
            TouchStep::Idle => None,
        }
    }

    /// The event relayed to the simulator for this touch state: a hold at
    /// the touch's point, with the click count as press count and the count
    /// one behind as release count.
    pub fn to_display_input(&self) -> (e: DisplayInput)
        ensures
            e == self.relayed(),
            e.kind == DisplayInputKind::Hold,
            e.x == self.mouse_coords[0] && e.y == self.mouse_coords[1],
            e.press_count == self.num_clicks,
            e.release_count as int == (if self.num_clicks == 0 { u32::MAX as int } else { self.num_clicks - 1 }),
    {
        DisplayInput {
            kind: DisplayInputKind::Hold,
            press_count: self.num_clicks,
            release_count: self.num_clicks.wrapping_sub(1),
            x: self.mouse_coords[0],
            y: self.mouse_coords[1],
        }
    }
}


/// A press off the display is ignored.
pub proof fn lemma_press_off_display_ignored(s: TouchState, input: PointerInput)
    requires
        input.pressed,
        input.position matches Some(p) && !p.on_display,
    ensures
        s.step_kind(input) == TouchStep::Idle,
        s.after(s.step_kind(input)) == s,
{
}

/// Without a touch in progress, only a press does anything.
pub proof fn lemma_no_touch_no_event(s: TouchState, input: PointerInput)
    requires
        !s.is_mouse_down,
        !input.pressed,
    ensures
        s.step_kind(input) == TouchStep::Idle,
        s.counted_event(s.step_kind(input)) is None,
{
}

/// A held pointer that stays on the same point sends nothing.
pub proof fn lemma_hold_in_place_silent(s: TouchState, input: PointerInput)
    requires
        !input.pressed,
        !input.released,
        input.position matches Some(p) && !coords_differ(p.coords, s.mouse_coords),
    ensures
        s.step_kind(input) == TouchStep::Idle,
{
}

/// A press on the display followed by a release: the press counts one more
/// click, the release ends the touch, and the press and release events carry
/// the same click count.
pub proof fn lemma_press_then_release(s: TouchState, press: PointerInput, release: PointerInput)
    requires
        press.pressed,
        press.position matches Some(p) && p.on_display,
        !release.pressed,
        release.released,
    ensures
        ({
            let s1 = s.after(s.step_kind(press));
            let s2 = s1.after(s1.step_kind(release));
            let e1 = s.counted_event(s.step_kind(press));
            let e2 = s1.counted_event(s1.step_kind(release));
            &&& s1.is_mouse_down
            &&& s1.num_clicks == next_count(s.num_clicks)
            &&& !s2.is_mouse_down
            &&& s2.num_clicks == s1.num_clicks
            &&& e1 matches Some(a) && a.kind == DisplayInputKind::Press
            &&& e2 matches Some(b) && b.kind == DisplayInputKind::Release
            &&& e1->0.press_count == e2->0.press_count
            &&& e2->0.release_count == e2->0.press_count
        }),
{
}

/// In a relayed event the release count is always one press behind.
pub proof fn lemma_relayed_counts(s: TouchState)
    ensures
        next_count(s.relayed().release_count) == s.relayed().press_count,
        s.relayed().kind == DisplayInputKind::Hold,
{
}


/// What one frame of pointer input does, stated case by case over the
/// inputs, the state after the frame and whether it is sent:
/// - a press on the display starts a touch there and counts one more click
///   (wrapping at `u32::MAX`), and is sent; a press off the display or
///   without a pointer changes nothing;
/// - otherwise a release during a touch ends it, at the pointer if known and
///   else where the touch was, keeps the click count, and is sent;
/// - otherwise, during a touch with the button held, a pointer whose x or y
///   differs from the touch's point moves the touch there, and is sent; at the
///   same point nothing changes;
/// - any other frame changes nothing and sends nothing.
pub proof fn lemma_touch_frame(s: TouchState, input: PointerInput)
    ensures
        ({
            let t = s.after(s.step_kind(input));
            let sent = s.step_kind(input) != TouchStep::Idle;
            let clicks_after_press: int = if s.num_clicks == u32::MAX { 0 } else { s.num_clicks + 1 };
            &&& input.pressed ==> match input.position {
                Some(p) => if p.on_display {
                    sent && t.is_mouse_down && t.num_clicks == clicks_after_press
                        && t.mouse_coords[0] == p.coords[0] && t.mouse_coords[1] == p.coords[1]
                } else {
                    !sent && t == s
                },
                None => !sent && t == s,
            }
            &&& !input.pressed && input.released && s.is_mouse_down ==> sent && !t.is_mouse_down
                && t.num_clicks == s.num_clicks && match input.position {
                Some(p) => t.mouse_coords[0] == p.coords[0] && t.mouse_coords[1] == p.coords[1],
                None => t.mouse_coords[0] == s.mouse_coords[0] && t.mouse_coords[1] == s.mouse_coords[1],
            }
            &&& !input.pressed && !(input.released && s.is_mouse_down) && input.primary_down
                && s.is_mouse_down ==> match input.position {
                Some(p) => if p.coords[0] != s.mouse_coords[0] || p.coords[1] != s.mouse_coords[1] {
                    sent && t.is_mouse_down && t.num_clicks == s.num_clicks
                        && t.mouse_coords[0] == p.coords[0] && t.mouse_coords[1] == p.coords[1]
                } else {
                    !sent && t == s
                },
                None => !sent && t == s,
            }
            &&& !input.pressed && !(input.released && s.is_mouse_down) && !(input.primary_down
                && s.is_mouse_down) ==> !sent && t == s
        }),
{
}

/// The counted event of a frame is at the point where the touch now is,
/// exists exactly when the frame is sent, and carries the counters: a press
/// with the new click count and the old one as release count, a release with
/// both equal to the click count, a drag with the release count one behind.
pub proof fn lemma_counted_event(s: TouchState, input: PointerInput)
    ensures
        ({
            let step = s.step_kind(input);
            let t = s.after(step);
            let e = s.counted_event(step);
            let behind: int = if t.num_clicks == 0 { u32::MAX as int } else { t.num_clicks - 1 };
            &&& (e is Some <==> step != TouchStep::Idle)
            &&& match e {
                Some(ev) => ev.x == t.mouse_coords[0] && ev.y == t.mouse_coords[1] && ev.press_count
                    == t.num_clicks,
                None => true,
            }
            &&& (input.pressed ==> match e {
                Some(ev) => ev.kind == DisplayInputKind::Press && ev.release_count == s.num_clicks,
                None => true,
            })
            &&& (!input.pressed && input.released && s.is_mouse_down ==> match e {
                Some(ev) => ev.kind == DisplayInputKind::Release && ev.release_count == s.num_clicks,
                None => false,
            })
            &&& (!input.pressed && !(input.released && s.is_mouse_down) ==> match e {
                Some(ev) => ev.kind == DisplayInputKind::Hold && ev.release_count == behind,
                None => true,
            })
        }),
{
}

/// The relayed event is a hold at the touch state's point, whether or not
/// the button is down, with the click count as press count and the count
/// one behind (wrapping) as release count.
pub proof fn lemma_relayed_event(s: TouchState)
    ensures
        s.relayed().kind == DisplayInputKind::Hold,
        s.relayed().x == s.mouse_coords[0],
        s.relayed().y == s.mouse_coords[1],
        s.relayed().press_count == s.num_clicks,
        s.relayed().release_count as int == (if s.num_clicks == 0 { u32::MAX as int } else { s.num_clicks - 1 }),
{
}

} // verus!
