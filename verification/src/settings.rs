//! The settings snapshot: an immutable read of the user-configured power and
//! session policy at one instant, together with the two small variant sets it
//! is built from.

use vstd::prelude::*;

verus! {

/// Action taken after a period of inactivity. `Blank` is the only variant that
/// produces both an on-timeout action and a distinct on-resume action;
/// `Interactive` has no defined policy yet and degrades to no action;
/// `Nothing` produces no action at all.
#[derive(Clone, Copy, Debug, PartialEq, Eq, Structural)]
pub enum SleepAction {
    Suspend,
    Hibernate,
    Blank,
    Shutdown,
    Logout,
    Interactive,
    Nothing,
}

/// Action bound to the physical power button.
#[derive(Clone, Copy, Debug, PartialEq, Eq, Structural)]
pub enum PowerButtonAction {
    Nothing,
    Suspend,
    Hibernate,
    Interactive,
}

/// An immutable value holding every setting the policy compiler reads.
/// Timeout fields are in seconds; `idle_brightness` is a percentage.
#[derive(Clone, Copy, Debug, PartialEq, Eq, Structural)]
pub struct PolicySnapshot {
    pub idle_dim: bool,
    pub idle_brightness: u32,
    pub idle_delay_seconds: u32,
    pub sleep_inactive_ac_timeout_seconds: u32,
    pub sleep_inactive_ac_mode: SleepAction,
    pub sleep_inactive_battery_timeout_seconds: u32,
    pub sleep_inactive_battery_mode: SleepAction,
    pub power_button_mode: PowerButtonAction,
}

} // verus!
