//! What the two components ask of their host, and what the host brings back.
//!
//! The components decide; the host does the work that reaches outside: it
//! reads the clock and files, talks to the system bus and to the window
//! manager. Each
//! request names one such piece of work, each reply holds what it found.

use crate::clock::TimeOfDay;
use crate::connectivity::{BusReading, ConnectivityTarget};
use crate::system_monitor::{cpu_usage_of, gpu_usage_of, usage_text};
use crate::window_list::WindowQuery;
use vstd::prelude::*;

verus! {

/// One piece of outside work.
#[derive(Debug, Clone, Copy, PartialEq, Eq, Structural)]
pub enum Request {
    /// Read the local time of day; answered by `Reply::Clock`.
    ReadClock,
    /// Ask the window manager for its windows; answered by `Reply::Windows`.
    ListWindows,
    /// Read the kernel's statistics file; answered by `Reply::Cpu`.
    ReadCpu,
    /// Read the GPU's busy-percent file; answered by `Reply::Gpu`.
    ReadGpu,
    /// Read a radio's power state; answered by `Reply::Power`.
    ReadPower(ConnectivityTarget),
    /// Switch a radio on or off. Nothing is answered: whether the switch
    /// took shows in the next reading only.
    WritePower(ConnectivityTarget, bool),
    /// Ask the window manager to focus a window. Nothing is answered.
    FocusWindow(u64),
    /// Bring the control center on screen. Nothing is answered.
    ShowConfigWindow,
}

impl Request {
    /// The file that the request reads, where it reads one.
    pub fn path(&self) -> (path: Option<&'static str>)
        ensures
            match *self {
                Request::ReadCpu => path matches Some(p) && p@ == "/proc/stat"@,
                Request::ReadGpu => path matches Some(p) && p@
                    == "/sys/class/drm/card0/device/gpu_busy_percent"@,
                _ => path is None,
            },
    {
        match self {
            Request::ReadCpu => Some("/proc/stat"),
            Request::ReadGpu => Some("/sys/class/drm/card0/device/gpu_busy_percent"),
            _ => None,
        }
    }
}

/// What one piece of outside work found.
#[derive(Debug, Clone)]
pub enum Reply {
    /// The local time of day.
    Clock(TimeOfDay),
    /// How the question to the window manager ended.
    Windows(WindowQuery),
    /// The text of the kernel's statistics file, or `None` where it could not
    /// be read.
    Cpu(Option<String>),
    /// The text of the GPU's busy-percent file, or `None` where it could not
    /// be read.
    Gpu(Option<String>),
    /// What the system bus told of a radio.
    Power(ConnectivityTarget, BusReading),
}

/// The CPU usage to show for the text of the kernel's statistics file,
/// `content` being `None` where the file could not be read.
pub open spec fn cpu_text(content: Option<String>) -> Seq<char> {
    usage_text(
        match content {
            Some(text) => cpu_usage_of(text@),
            None => None,
        },
    )
}

/// The GPU usage to show for the text of the busy-percent file, `content`
/// being `None` where the file could not be read.
pub open spec fn gpu_text(content: Option<String>) -> Seq<char> {
    usage_text(
        match content {
            Some(text) => gpu_usage_of(text@),
            None => None,
        },
    )
}

} // verus!
