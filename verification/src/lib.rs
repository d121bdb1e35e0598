//! Verified core of an autoclicker engine for Linux input devices.
//!
//! The engine turns a raw input event stream into a small toggleable state
//! (the event classifier), hands immutable state snapshots from the reader
//! to the emitter, and turns that state into timed press/release pairs on
//! virtual buttons (the emission loop). This crate holds the classifier,
//! the emission-cycle planner and the configuration rules, all verified;
//! device handles, threads and console I/O live with the caller.

pub mod classify;
pub mod config;
pub mod emission;
pub mod state;

pub use config::Args;
pub use config::ConfigError;
pub use config::DeviceType;
pub use config::KeyCode;
pub use config::Shared;
pub use config::StateNormal;
pub use config::TheClicker;
pub use config::Variant;
pub use state::Binding;
pub use state::Mode;
pub use state::RawEvent;
pub use state::ToggleStates;
