//! Messages that drive the two components of the bar.

use vstd::prelude::*;

verus! {

/// Messages for the main bar component.
#[derive(Debug, Clone, Copy, PartialEq, Eq, Structural)]
pub enum AppMessage {
    ClockUpdate,
    WindowListUpdate,
    SystemInfoUpdate,
    ConnectivityUpdate,
    SystemInfoClicked,
}

/// Messages for the control-center component.
#[derive(Debug, Clone, Copy, PartialEq, Eq, Structural)]
pub enum ConfMessage {
    UpdateStatus,
    ToggleWifi(bool),
    ToggleBluetooth(bool),
}

/// A message that is to be sent again and again, every `seconds` seconds.
#[derive(Debug, Clone, Copy, PartialEq, Eq, Structural)]
pub struct Timer<M> {
    pub seconds: u32,
    pub message: M,
}

} // verus!
