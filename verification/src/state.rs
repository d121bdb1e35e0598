//! Core data model of the autoclicker engine: raw input events, the
//! binding table, the activation mode, and the engine state snapshot.

use vstd::prelude::*;

verus! {

/// Event `value` of 1 means "pressed", 2 means "auto-repeat"; both count as
/// a press edge. 0 means "released".
pub open spec fn spec_pressed(value: i32) -> bool {
    value == 1 || value == 2
}

/// One fixed-size event read from the physical input device, reduced to the
/// three fields the engine reads. Timestamps stay with the device layer.
#[derive(Clone, Copy, Debug, PartialEq, Eq, Structural)]
pub struct RawEvent {
    /// Event class (`EV_KEY` for key and button events, `EV_SYN` for
    /// synchronize markers).
    pub ev_type: u16,
    /// Key or button code of the event.
    pub code: u16,
    /// 1 or 2 on a press or repeat, 0 on a release.
    pub value: i32,
}

impl RawEvent {
    /// Whether this event is a press or repeat edge.
    pub fn pressed(&self) -> (r: bool)
        ensures
            r == spec_pressed(self.value),
    {
        self.value == 1 || self.value == 2
    }
}

/// Which virtual buttons are currently held down, and whether role changes
/// are frozen. A fresh snapshot travels over the state channel on every
/// change; the emission loop never shares mutable state with the classifier.
#[derive(Clone, Copy, Debug, PartialEq, Eq, Structural)]
pub struct ToggleStates {
    /// Primary click is active.
    pub left: bool,
    /// Middle click is active.
    pub middle: bool,
    /// Secondary click is active.
    pub right: bool,
    /// Role changes are currently ignored; only the lock binding itself
    /// may still flip this flag.
    pub lock: bool,
}

impl Default for ToggleStates {
    /// The idle state: nothing active, nothing locked.
    fn default() -> (r: Self)
        ensures
            r == (ToggleStates { left: false, middle: false, right: false, lock: false }),
    {
        ToggleStates { left: false, middle: false, right: false, lock: false }
    }
}

impl ToggleStates {
    /// Whether any click role is currently active.
    pub open spec fn spec_any_active(self) -> bool {
        self.left || self.middle || self.right
    }

    /// Whether any click role is currently active.
    pub fn any_active(&self) -> (r: bool)
        ensures
            r == self.spec_any_active(),
    {
        self.left || self.middle || self.right
    }
}

/// Activation policy for the click roles.
#[derive(Clone, Copy, Debug, PartialEq, Eq, Structural)]
pub enum Mode {
    /// Level-triggered: a role is active exactly while its bound control is
    /// physically down.
    Hold,
    /// Edge-triggered: each press edge flips the role; releases are ignored.
    Toggle,
}

/// The binding table: an optional device event code per role. Immutable for
/// the process lifetime once the engine starts.
#[derive(Clone, Copy, Debug, PartialEq, Eq, Structural)]
pub struct Binding {
    /// Code bound to the primary click role.
    pub left: Option<u16>,
    /// Code bound to the middle click role.
    pub middle: Option<u16>,
    /// Code bound to the secondary click role.
    pub right: Option<u16>,
    /// Code bound to the lock/unlock control.
    pub lock_unlock: Option<u16>,
}

impl Binding {
    /// Whether the given event code is bound to at least one click role
    /// (the lock binding does not count as a click role).
    pub open spec fn spec_matches_role(self, code: u16) -> bool {
        self.left == Some(code) || self.middle == Some(code) || self.right == Some(code)
    }
}

} // verus!
