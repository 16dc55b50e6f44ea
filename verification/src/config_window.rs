//! The control center: the readings it shows and the switches it offers.

use crate::connectivity::{
    read_bluetooth_status, read_wifi_status, status_of, BusReading, ConnectivityStatus,
    ConnectivityTarget, StatusModel,
};
use crate::messages::{ConfMessage, Timer};
use crate::sources::{cpu_text, gpu_text, Reply, Request};
use crate::system_monitor::{
    cpu_usage_of, gpu_usage_of, read_cpu_usage, read_gpu_usage, usage_text,
};
use vstd::prelude::*;

verus! {

/// What the control center shows.
#[derive(Debug, Clone)]
pub struct ConfigWindow {
    pub wifi_status: ConnectivityStatus,
    pub bluetooth_status: ConnectivityStatus,
    pub cpu_usage: String,
    pub gpu_usage: String,
}

/// What a `ConfigWindow` stands for.
pub struct ConfigModel {
    pub wifi: StatusModel,
    pub bluetooth: StatusModel,
    pub cpu: Seq<char>,
    pub gpu: Seq<char>,
}

impl View for ConfigWindow {
    type V = ConfigModel;

    open spec fn view(&self) -> ConfigModel {
        ConfigModel {
            wifi: self.wifi_status@,
            bluetooth: self.bluetooth_status@,
            cpu: self.cpu_usage@,
            gpu: self.gpu_usage@,
        }
    }
}

impl ConfigModel {
    /// The control center after it has taken `reply` in: a reply replaces the
    /// one reading it speaks of; the clock and the window list are none of its
    /// business.
    pub open spec fn absorbed(self, reply: Reply) -> ConfigModel {
        match reply {
            Reply::Clock(_) => self,
            Reply::Windows(_) => self,
            Reply::Cpu(content) => ConfigModel { cpu: cpu_text(content), ..self },
            Reply::Gpu(content) => ConfigModel { gpu: gpu_text(content), ..self },
            Reply::Power(ConnectivityTarget::Wifi, reading) => ConfigModel {
                wifi: status_of(ConnectivityTarget::Wifi, reading),
                ..self
            },
            Reply::Power(ConnectivityTarget::Bluetooth, reading) => ConfigModel {
                bluetooth: status_of(ConnectivityTarget::Bluetooth, reading),
                ..self
            },
        }
    }
}

/// The outside work that a message to the control center calls for, in the
/// order in which it is to be done. A switch is written and then read back:
/// what is shown afterwards is what the radio says, never what was asked.
pub open spec fn conf_requests(message: ConfMessage) -> Seq<Request> {
    match message {
        ConfMessage::UpdateStatus => seq![
            Request::ReadPower(ConnectivityTarget::Wifi),
            Request::ReadPower(ConnectivityTarget::Bluetooth),
            Request::ReadCpu,
            Request::ReadGpu,
        ],
        ConfMessage::ToggleWifi(enabled) => seq![
            Request::WritePower(ConnectivityTarget::Wifi, enabled),
            Request::ReadPower(ConnectivityTarget::Wifi),
        ],
        ConfMessage::ToggleBluetooth(enabled) => seq![
            Request::WritePower(ConnectivityTarget::Bluetooth, enabled),
            Request::ReadPower(ConnectivityTarget::Bluetooth),
        ],
    }
}

impl ConfigWindow {
    /// The control center as it starts, from one reading of each source.
    pub fn init(
        wifi: &BusReading,
        bluetooth: &BusReading,
        stat: Option<&str>,
        busy: Option<&str>,
    ) -> (window: ConfigWindow)
        ensures
            window@.wifi == status_of(ConnectivityTarget::Wifi, *wifi),
            window@.bluetooth == status_of(ConnectivityTarget::Bluetooth, *bluetooth),
            window@.cpu == usage_text(
                match stat {
                    Some(content) => cpu_usage_of(content@),
                    None => None,
                },
            ),
            window@.gpu == usage_text(
                match busy {
                    Some(content) => gpu_usage_of(content@),
                    None => None,
                },
            ),
    {
        ConfigWindow {
            wifi_status: read_wifi_status(wifi),
            bluetooth_status: read_bluetooth_status(bluetooth),
            cpu_usage: read_cpu_usage(stat),
            gpu_usage: read_gpu_usage(busy),
        }
    }

    /// The tick that refreshes the control center: every two seconds.
    pub fn refresh_timer() -> (timer: Timer<ConfMessage>)
        ensures
            timer == (Timer { seconds: 2, message: ConfMessage::UpdateStatus }),
    {
        Timer { seconds: 2, message: ConfMessage::UpdateStatus }
    }

    /// Tells which outside work a message calls for. What is shown changes
    /// only when the replies come in.
    pub fn update(&self, message: ConfMessage) -> (requests: Vec<Request>)
        ensures
            requests@ == conf_requests(message),
    {
        let mut requests: Vec<Request> = Vec::new();
        match message {
            ConfMessage::UpdateStatus => {
                requests.push(Request::ReadPower(ConnectivityTarget::Wifi));
                requests.push(Request::ReadPower(ConnectivityTarget::Bluetooth));
                requests.push(Request::ReadCpu);
                requests.push(Request::ReadGpu);
            },
            ConfMessage::ToggleWifi(enabled) => {
                requests.push(Request::WritePower(ConnectivityTarget::Wifi, enabled));
                requests.push(Request::ReadPower(ConnectivityTarget::Wifi));
            },
            ConfMessage::ToggleBluetooth(enabled) => {
                requests.push(Request::WritePower(ConnectivityTarget::Bluetooth, enabled));
                requests.push(Request::ReadPower(ConnectivityTarget::Bluetooth));
            },
        }
        assert(requests@ =~= conf_requests(message));
        requests
    }

    /// Takes a reply in: the reading that the reply speaks of is replaced by
    /// what the reply gives.
    pub fn absorb(&mut self, reply: Reply)
        ensures
            final(self)@ == old(self)@.absorbed(reply),
    {
        match reply {
            Reply::Clock(_) => {},
            Reply::Windows(_) => {},
            Reply::Cpu(content) => {
                self.cpu_usage = match &content {
                    Some(text) => read_cpu_usage(Some(text.as_str())),
                    None => read_cpu_usage(None),
                };
            },
            Reply::Gpu(content) => {
                self.gpu_usage = match &content {
                    Some(text) => read_gpu_usage(Some(text.as_str())),
                    None => read_gpu_usage(None),
                };
            },
            Reply::Power(ConnectivityTarget::Wifi, reading) => {
                self.wifi_status = read_wifi_status(&reading);
            },
            Reply::Power(ConnectivityTarget::Bluetooth, reading) => {
                self.bluetooth_status = read_bluetooth_status(&reading);
            },
        }
    }
}

/// Taking the same reply in twice shows what taking it in once shows.
pub proof fn lemma_config_absorb_twice(window: ConfigModel, reply: Reply)
    ensures
        window.absorbed(reply).absorbed(reply) == window.absorbed(reply),
{
}

/// The message that asks to switch `target`.
pub open spec fn toggle(target: ConnectivityTarget, enabled: bool) -> ConfMessage {
    match target {
        ConnectivityTarget::Wifi => ConfMessage::ToggleWifi(enabled),
        ConnectivityTarget::Bluetooth => ConfMessage::ToggleBluetooth(enabled),
    }
}

/// The status of `target` that the control center shows.
pub open spec fn shown_status(window: ConfigModel, target: ConnectivityTarget) -> StatusModel {
    match target {
        ConnectivityTarget::Wifi => window.wifi,
        ConnectivityTarget::Bluetooth => window.bluetooth,
    }
}

/// A switch never shows what was asked for, only what was read back: the
/// write is followed by a reading of the same radio, and once that reading
/// is taken in, the status shown is the status that the reading amounts to,
/// whichever way the switch was thrown. A radio that reads as off is shown as
/// off even after a request to switch it on.
pub proof fn lemma_toggle_shows_reading(
    window: ConfigModel,
    target: ConnectivityTarget,
    enabled: bool,
    reading: BusReading,
)
    ensures
        conf_requests(toggle(target, enabled)) == seq![
            Request::WritePower(target, enabled),
            Request::ReadPower(target),
        ],
        shown_status(window.absorbed(Reply::Power(target, reading)), target) == status_of(
            target,
            reading,
        ),
        reading matches BusReading::Power { on, .. } ==> shown_status(
            window.absorbed(Reply::Power(target, reading)),
            target,
        ).enabled == on,
        !(reading is Power) ==> !shown_status(
            window.absorbed(Reply::Power(target, reading)),
            target,
        ).enabled,
{
}

} // verus!
