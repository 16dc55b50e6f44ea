//! Status aggregation and reconciliation for a desktop status bar.
//!
//! The bar shows the time of day, the CPU and GPU load, the power state of
//! the Wi-Fi and Bluetooth radios and the window manager's windows, grouped
//! by workspace. This crate holds what the bar decides and computes; its
//! host reads the clock and the files, talks to the system bus and to the
//! window manager, and draws.
//!
//! - [`text`] scans the text of the host's resource files;
//! - [`system_monitor`] turns that text into usage readings;
//! - [`connectivity`] turns what the system bus told into a radio's status;
//! - [`grouping`] says what it is to group windows by workspace, and
//!   [`window_list`] does it, through a sorted map that [`ordered`] walks;
//! - [`clock`] holds a time of day and writes it as the bar shows it;
//! - [`messages`] and [`sources`] name what goes into the two components and
//!   what they ask of the host;
//! - [`app`] and [`config_window`] are the two components: the bar and the
//!   control center.

pub mod app;
pub mod clock;
pub mod config_window;
pub mod connectivity;
pub mod grouping;
pub mod messages;
pub mod ordered;
pub mod sources;
pub mod system_monitor;
pub mod text;
pub mod window_list;
