//! Plain values for the event vocabulary of the Linux input subsystem.
use vstd::prelude::*;

verus! {

/// Event type of a synchronization event (`EV_SYN`).
pub const EV_SYN: u16 = 0;

/// Event type of a key or button event (`EV_KEY`).
pub const EV_KEY: u16 = 1;

/// Event type of an absolute axis event (`EV_ABS`).
pub const EV_ABS: u16 = 3;

/// Synchronization code that closes a frame of events (`SYN_REPORT`).
pub const SYN_REPORT: u16 = 0;

/// The code of an absolute axis (`ABS_*`).
#[derive(Clone, Copy, Debug, PartialEq, Eq, Structural, Hash)]
pub struct AbsoluteAxisType(pub u16);

/// The code of a key or button (`KEY_*`, `BTN_*`).
#[derive(Clone, Copy, Debug, PartialEq, Eq, Structural, Hash)]
pub struct KeyCode(pub u16);

/// The code of a synchronization event (`SYN_*`).
#[derive(Clone, Copy, Debug, PartialEq, Eq, Structural, Hash)]
pub struct Synchronization(pub u16);

/// Calibration of an absolute axis, with its last known value.
#[derive(Clone, Copy, Debug, PartialEq, Eq, Structural, Hash)]
pub struct AbsInfo {
    pub value: i32,
    pub minimum: i32,
    pub maximum: i32,
    pub fuzz: i32,
    pub flat: i32,
    pub resolution: i32,
}

impl AbsInfo {
    /// The same calibration with `value` as the current value.
    pub open spec fn with_value(self, value: i32) -> AbsInfo {
        AbsInfo { value, ..self }
    }

    pub fn new(value: i32, minimum: i32, maximum: i32, fuzz: i32, flat: i32, resolution: i32) -> (r:
        AbsInfo)
        ensures
            r == (AbsInfo { value, minimum, maximum, fuzz, flat, resolution }),
    {
        AbsInfo { value, minimum, maximum, fuzz, flat, resolution }
    }

    /// A copy of this calibration whose current value is `value`.
    pub fn clone_set_value(&self, value: i32) -> (r: AbsInfo)
        ensures
            r == self.with_value(value),
    {
        AbsInfo { value, ..*self }
    }
}

/// One raw event: its type, its code within that type, and its value.
#[derive(Clone, Copy, Debug, PartialEq, Eq, Structural, Hash)]
pub struct InputEvent {
    pub event_type: u16,
    pub code: u16,
    pub value: i32,
}

impl InputEvent {
    pub fn new(event_type: u16, code: u16, value: i32) -> (r: InputEvent)
        ensures
            r == (InputEvent { event_type, code, value }),
    {
        InputEvent { event_type, code, value }
    }
}

} // verus!
