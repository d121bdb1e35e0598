//! Engine configuration: the caller-facing argument record, the validated
//! engine value built from it, and the construction-time rules that reject
//! malformed configurations before any device is touched.

use vstd::prelude::*;

use crate::state::Binding;
use crate::state::Mode;
use crate::state::ToggleStates;

verus! {

/// A device event code, as bound to a role or reported by a device.
#[derive(Clone, Copy, Debug, PartialEq, Eq, Structural)]
pub struct KeyCode(pub u16);

/// What kind of physical device the engine reads from. The engine's own
/// behaviour does not depend on this; the device layer uses it to pick
/// default bindings and grab policy.
#[derive(Clone, Copy, Debug, PartialEq, Eq, Structural)]
pub enum DeviceType {
    /// A pointing device.
    Mouse,
    /// A keyboard.
    Keyboard,
}

impl DeviceType {
    /// Whether this is the mouse device type.
    pub fn is_mouse(&self) -> (r: bool)
        ensures
            r == (*self is Mouse),
    {
        matches!(self, DeviceType::Mouse)
    }

    /// Whether this is the keyboard device type.
    pub fn is_keyboard(&self) -> (r: bool)
        ensures
            r == (*self is Keyboard),
    {
        matches!(self, DeviceType::Keyboard)
    }
}

/// A configuration the engine rejects at construction time.
#[derive(Clone, Copy, Debug, PartialEq, Eq, Structural)]
pub enum ConfigError {
    /// The device type flags name both a mouse and a keyboard.
    ConflictingDeviceType,
    /// The engine is asked to start locked, but no lock binding exists that
    /// could ever unlock it.
    LockWithoutBinding,
}

/// The caller's choices, as the surrounding command line and cache layer
/// hand them over. Plain values only; parsing and persistence stay outside.
#[derive(Debug)]
pub struct Args {
    /// Forget the persisted configuration before anything else.
    pub clear_cache: bool,
    /// Inter-cycle cooldown in milliseconds.
    pub cooldown: u64,
    /// Press-to-release cooldown in milliseconds.
    pub cooldown_press_release: u64,
    /// Event code bound to the primary click role.
    pub left_bind: Option<u16>,
    /// Event code bound to the middle click role.
    pub middle_bind: Option<u16>,
    /// Event code bound to the secondary click role.
    pub right_bind: Option<u16>,
    /// Event code bound to the lock/unlock control.
    pub lock_bind: Option<u16>,
    /// Begin with role changes frozen until the lock binding unlocks them.
    pub start_locked: bool,
    /// Level-triggered activation instead of the default edge-triggered one.
    pub hold: bool,
    /// Only report which keys are pressed instead of running the engine.
    pub find_keycodes: bool,
    /// Do not beep when the autoclicker state changes.
    pub no_beep: bool,
    /// Print every raw event as it is read.
    pub debug: bool,
    /// Do not grab the input device exclusively.
    pub no_grab: bool,
    /// Allow grabbing a keyboard device.
    pub grab_kbd: bool,
    /// Pick the device whose name matches this query.
    pub use_device: Option<String>,
    /// Open this device path directly.
    pub use_dev_path: Option<String>,
    /// Treat the selected device as a keyboard.
    pub is_keyboard: bool,
    /// Treat the selected device as a mouse.
    pub is_mouse: bool,
}

impl Args {
    /// Both device type flags are set at once: rejected.
    pub open spec fn spec_conflicting_device(self) -> bool {
        self.is_mouse && self.is_keyboard
    }

    /// A locked start without a lock binding could never be undone: rejected.
    pub open spec fn spec_lock_unbound(self) -> bool {
        self.start_locked && self.lock_bind is None
    }

    /// The binding table these arguments describe.
    pub open spec fn spec_bindings(self) -> Binding {
        Binding {
            left: self.left_bind,
            middle: self.middle_bind,
            right: self.right_bind,
            lock_unlock: self.lock_bind,
        }
    }

    /// The activation mode these arguments describe.
    pub open spec fn spec_mode(self) -> Mode {
        if self.hold {
            Mode::Hold
        } else {
            Mode::Toggle
        }
    }
}

/// The device type the two command line flags select, or the error when
/// they conflict.
pub fn device_type_from_flags(is_mouse: bool, is_keyboard: bool) -> (r: Result<
    Option<DeviceType>,
    ConfigError,
>)
    ensures
        is_mouse && is_keyboard ==> r == Err::<Option<DeviceType>, ConfigError>(
            ConfigError::ConflictingDeviceType,
        ),
        is_mouse && !is_keyboard ==> r == Ok::<Option<DeviceType>, ConfigError>(
            Some(DeviceType::Mouse),
        ),
        !is_mouse && is_keyboard ==> r == Ok::<Option<DeviceType>, ConfigError>(
            Some(DeviceType::Keyboard),
        ),
        !is_mouse && !is_keyboard ==> r == Ok::<Option<DeviceType>, ConfigError>(
            None,
        ),
{
    match (is_mouse, is_keyboard) {
        (true, true) => Err(ConfigError::ConflictingDeviceType),
        (true, false) => Ok(Some(DeviceType::Mouse)),
        (false, true) => Ok(Some(DeviceType::Keyboard)),
        (false, false) => Ok(None),
    }
}

/// The validated engine configuration: binding table, mode, grab flag and
/// the two cadence durations in milliseconds.
#[derive(Clone, Copy, Debug, PartialEq, Eq, Structural)]
pub struct StateNormal {
    /// The binding table, immutable once the engine runs.
    pub bindings: Binding,
    /// Level- or edge-triggered activation.
    pub mode: Mode,
    /// Whether the physical device is grabbed exclusively, which turns the
    /// pass-through relay on.
    pub grab: bool,
    /// Inter-cycle cooldown in milliseconds.
    pub cooldown: u64,
    /// Press-to-release cooldown in milliseconds.
    pub cooldown_pr: u64,
    /// Whether the engine starts with role changes frozen.
    pub start_locked: bool,
}

impl StateNormal {
    /// A configuration is well formed when a locked start comes with a lock
    /// binding that can undo it. Construction establishes this.
    pub open spec fn wf(self) -> bool {
        self.start_locked ==> self.bindings.lock_unlock is Some
    }

    /// The state the engine starts from: nothing active, and locked exactly
    /// when the configuration starts locked.
    pub fn initial_state(&self) -> (r: ToggleStates)
        ensures
            r == (ToggleStates {
                left: false,
                middle: false,
                right: false,
                lock: self.start_locked,
            }),
    {
        ToggleStates { left: false, middle: false, right: false, lock: self.start_locked }
    }
}

/// The engine variants the command line can select. Only the event-code
/// interface is carried by this crate; the legacy byte-protocol interface
/// is not implemented anywhere in the project.
#[derive(Clone, Copy, Debug, PartialEq, Eq, Structural)]
pub enum Variant {
    /// The event-code engine.
    Normal(StateNormal),
    /// The unimplemented legacy interface; selecting it is the caller's
    /// error path.
    Legacy {},
}

/// What both halves of the engine share: the diagnostic and notification
/// flags. Device handles stay with the device layer, which hands events in
/// and takes event frames out as plain values.
#[derive(Clone, Copy, Debug, PartialEq, Eq, Structural)]
pub struct Shared {
    /// Print every raw event as it is read.
    pub debug: bool,
    /// Beep when the autoclicker state changes.
    pub beep: bool,
}

/// The whole validated engine: the shared flags and the selected variant.
#[derive(Clone, Copy, Debug, PartialEq, Eq, Structural)]
pub struct TheClicker {
    /// The flags both halves read.
    pub shared: Shared,
    /// The selected engine variant.
    pub variant: Variant,
}

impl TheClicker {
    /// Validate the caller's choices and build the engine configuration.
    ///
    /// Exactly the two malformed shapes are rejected: conflicting device
    /// type flags, and a locked start without a lock binding. Everything
    /// else maps to a well-formed `Variant::Normal` engine.
    pub fn new(args: Args) -> (r: Result<TheClicker, ConfigError>)
        ensures
            r is Err <==> args.spec_conflicting_device() || args.spec_lock_unbound(),
            args.spec_conflicting_device() ==> r == Err::<TheClicker, ConfigError>(
                ConfigError::ConflictingDeviceType,
            ),
            !args.spec_conflicting_device() && args.spec_lock_unbound() ==> r == Err::<
                TheClicker,
                ConfigError,
            >(ConfigError::LockWithoutBinding),
            r matches Ok(c) ==> {
                &&& c.shared.debug == args.debug
                &&& c.shared.beep == !args.no_beep
                &&& c.variant matches Variant::Normal(sn)
                &&& sn.bindings == args.spec_bindings()
                &&& sn.mode == args.spec_mode()
                &&& sn.grab == !args.no_grab
                &&& sn.cooldown == args.cooldown
                &&& sn.cooldown_pr == args.cooldown_press_release
                &&& sn.start_locked == args.start_locked
                &&& sn.wf()
            },
    {
        if args.is_mouse && args.is_keyboard {
            return Err(ConfigError::ConflictingDeviceType);
        }
        if args.start_locked && args.lock_bind.is_none() {
            return Err(ConfigError::LockWithoutBinding);
        }
        Ok(
            TheClicker {
                shared: Shared { debug: args.debug, beep: !args.no_beep },
                variant: Variant::Normal(
                    StateNormal {
                        bindings: Binding {
                            left: args.left_bind,
                            middle: args.middle_bind,
                            right: args.right_bind,
                            lock_unlock: args.lock_bind,
                        },
                        mode: if args.hold {
                            Mode::Hold
                        } else {
                            Mode::Toggle
                        },
                        grab: !args.no_grab,
                        cooldown: args.cooldown,
                        cooldown_pr: args.cooldown_press_release,
                        start_locked: args.start_locked,
                    },
                ),
            },
        )
    }
}

} // verus!
