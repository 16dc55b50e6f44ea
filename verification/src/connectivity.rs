//! Power state of the Wi-Fi and Bluetooth radios, as the system bus reports it.

use vstd::prelude::*;

verus! {

/// Wi-Fi or Bluetooth status: whether the radio is on, and a label to show.
#[derive(Debug, Clone)]
pub struct ConnectivityStatus {
    pub enabled: bool,
    pub _status: String,
}

/// What a `ConnectivityStatus` stands for.
pub struct StatusModel {
    pub enabled: bool,
    pub label: Seq<char>,
}

impl View for ConnectivityStatus {
    type V = StatusModel;

    open spec fn view(&self) -> StatusModel {
        StatusModel { enabled: self.enabled, label: self._status@ }
    }
}

pub open spec fn label_connected() -> Seq<char> {
    seq!['C', 'o', 'n', 'n', 'e', 'c', 't', 'e', 'd']
}

pub open spec fn label_enabled() -> Seq<char> {
    seq!['E', 'n', 'a', 'b', 'l', 'e', 'd']
}

pub open spec fn label_disabled() -> Seq<char> {
    seq!['D', 'i', 's', 'a', 'b', 'l', 'e', 'd']
}

pub open spec fn label_unknown() -> Seq<char> {
    seq!['U', 'n', 'k', 'n', 'o', 'w', 'n']
}

pub open spec fn label_unavailable() -> Seq<char> {
    seq!['N', '/', 'A']
}

impl ConnectivityStatus {
    pub fn new(enabled: bool, _status: String) -> (status: Self)
        ensures
            status.enabled == enabled,
            status._status == _status,
            status@ == (StatusModel { enabled, label: _status@ }),
    {
        Self { enabled, _status }
    }

    /// The status of a radio whose power state could not be read.
    pub fn unknown() -> (status: Self)
        ensures
            status@ == (StatusModel { enabled: false, label: label_unknown() }),
    {
        proof {
            reveal_strlit("Unknown");
        }
        let status = Self { enabled: false, _status: String::from_str("Unknown") };
        assert(status._status@ =~= label_unknown());
        status
    }
}

/// The radios whose power the bar shows and switches.
#[derive(Debug, Clone, Copy, PartialEq, Eq, Structural)]
pub enum ConnectivityTarget {
    Wifi,
    Bluetooth,
}

impl ConnectivityTarget {
    /// The bus name of the service that owns the radio.
    pub fn service(&self) -> (name: &'static str)
        ensures
            name@ == match *self {
                ConnectivityTarget::Wifi => "org.freedesktop.NetworkManager"@,
                ConnectivityTarget::Bluetooth => "org.bluez"@,
            },
    {
        match self {
            ConnectivityTarget::Wifi => "org.freedesktop.NetworkManager",
            ConnectivityTarget::Bluetooth => "org.bluez",
        }
    }

    /// The path of the object that stands for the radio.
    pub fn object_path(&self) -> (path: &'static str)
        ensures
            path@ == match *self {
                ConnectivityTarget::Wifi => "/org/freedesktop/NetworkManager"@,
                ConnectivityTarget::Bluetooth => "/org/bluez/hci0"@,
            },
    {
        match self {
            ConnectivityTarget::Wifi => "/org/freedesktop/NetworkManager",
            ConnectivityTarget::Bluetooth => "/org/bluez/hci0",
        }
    }

    /// The interface that holds the radio's properties.
    pub fn interface(&self) -> (name: &'static str)
        ensures
            name@ == match *self {
                ConnectivityTarget::Wifi => "org.freedesktop.NetworkManager"@,
                ConnectivityTarget::Bluetooth => "org.bluez.Adapter1"@,
            },
    {
        match self {
            ConnectivityTarget::Wifi => "org.freedesktop.NetworkManager",
            ConnectivityTarget::Bluetooth => "org.bluez.Adapter1",
        }
    }

    /// The boolean property that tells, and sets, whether the radio is on.
    pub fn power_property(&self) -> (name: &'static str)
        ensures
            name@ == match *self {
                ConnectivityTarget::Wifi => "WirelessEnabled"@,
                ConnectivityTarget::Bluetooth => "Powered"@,
            },
    {
        match self {
            ConnectivityTarget::Wifi => "WirelessEnabled",
            ConnectivityTarget::Bluetooth => "Powered",
        }
    }

    /// The property that lists the radio's live links, where it has one.
    pub fn links_property(&self) -> (name: Option<&'static str>)
        ensures
            match *self {
                ConnectivityTarget::Wifi => name matches Some(n) && n@ == "ActiveConnections"@,
                ConnectivityTarget::Bluetooth => name is None,
            },
    {
        match self {
            ConnectivityTarget::Wifi => Some("ActiveConnections"),
            ConnectivityTarget::Bluetooth => None,
        }
    }
}

/// What one round of questions to the system bus brought back about a radio.
#[derive(Debug, Clone)]
pub enum BusReading {
    /// The bus itself could not be reached.
    Unreachable,
    /// The bus was reached, but the power property could not be read.
    Unreadable,
    /// The power property, and the links listed beside it: none where the
    /// radio has no such list or the list could not be read.
    Power { on: bool, links: Vec<String> },
}

/// The reading of a radio whose power property was read as `on`. `links` is
/// what the list of its live links gave, or `None` where the radio has no
/// such list or the list could not be read: that counts as no links, so a
/// radio that is on is then shown as enabled and not as connected.
pub fn power_reading(on: bool, links: Option<Vec<String>>) -> (reading: BusReading)
    ensures
        reading matches BusReading::Power { on: read_on, links: read_links } && read_on == on
            && read_links@ == (match links {
            Some(found) => found@,
            None => Seq::<String>::empty(),
        }),
{
    match links {
        Some(found) => BusReading::Power { on, links: found },
        None => BusReading::Power { on, links: Vec::new() },
    }
}

/// The status that a reading of `target` amounts to.
pub open spec fn status_of(target: ConnectivityTarget, reading: BusReading) -> StatusModel {
    match reading {
        BusReading::Unreachable => StatusModel { enabled: false, label: label_unavailable() },
        BusReading::Unreadable => StatusModel { enabled: false, label: label_unknown() },
        BusReading::Power { on, links } => if !on {
            StatusModel { enabled: false, label: label_disabled() }
        } else if target == ConnectivityTarget::Wifi && links@.len() > 0 {
            StatusModel { enabled: true, label: label_connected() }
        } else {
            StatusModel { enabled: true, label: label_enabled() }
        },
    }
}

/// Turns a reading of `target` into the status to show.
pub fn read_status(target: ConnectivityTarget, reading: &BusReading) -> (status: ConnectivityStatus)
    ensures
        status@ == status_of(target, *reading),
{
    proof {
        reveal_strlit("N/A");
        reveal_strlit("Connected");
        reveal_strlit("Enabled");
        reveal_strlit("Disabled");
    }
    match reading {
        BusReading::Unreachable => {
            let status = ConnectivityStatus::new(false, String::from_str("N/A"));
            assert(status._status@ =~= label_unavailable());
            status
        },
        BusReading::Unreadable => ConnectivityStatus::unknown(),
        BusReading::Power { on, links } => {
            if !*on {
                let status = ConnectivityStatus::new(false, String::from_str("Disabled"));
                assert(status._status@ =~= label_disabled());
                status
            } else if matches!(target, ConnectivityTarget::Wifi) && links.len() > 0 {
                let status = ConnectivityStatus::new(true, String::from_str("Connected"));
                assert(status._status@ =~= label_connected());
                status
            } else {
                let status = ConnectivityStatus::new(true, String::from_str("Enabled"));
                assert(status._status@ =~= label_enabled());
                status
            }
        },
    }
}

/// The Wi-Fi status that a reading of the network manager amounts to.
pub fn read_wifi_status(reading: &BusReading) -> (status: ConnectivityStatus)
    ensures
        status@ == status_of(ConnectivityTarget::Wifi, *reading),
{
    read_status(ConnectivityTarget::Wifi, reading)
}

/// The Bluetooth status that a reading of the adapter amounts to.
pub fn read_bluetooth_status(reading: &BusReading) -> (status: ConnectivityStatus)
    ensures
        status@ == status_of(ConnectivityTarget::Bluetooth, *reading),
{
    read_status(ConnectivityTarget::Bluetooth, reading)
}

} // verus!
