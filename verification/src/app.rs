//! The bar itself: what it shows, and how ticks and replies change it.

use crate::clock::{clock_text_of, TimeOfDay};
use crate::connectivity::{
    label_unknown, read_bluetooth_status, read_wifi_status, status_of, ConnectivityStatus,
    ConnectivityTarget, StatusModel,
};
use crate::grouping::{grouped, SectionModel};
use crate::messages::{AppMessage, Timer};
use crate::sources::{cpu_text, gpu_text, Reply, Request};
use crate::system_monitor::{format_usage, read_cpu_usage, read_gpu_usage, usage_text};
use crate::window_list::{
    listed, sections_view, update_window_list, IpcError, WindowQuery, WorkspaceSection,
};
use vstd::prelude::*;

verus! {

/// What the bar shows.
#[derive(Debug)]
pub struct App {
    /// The time of day.
    pub clock: String,
    /// The CPU usage and the GPU usage.
    pub system_info: (String, String),
    pub wifi_status: ConnectivityStatus,
    pub bluetooth_status: ConnectivityStatus,
    /// The workspace sections as they were last built.
    pub window_list: Vec<WorkspaceSection>,
}

/// What an `App` stands for.
pub struct AppModel {
    pub clock: Seq<char>,
    pub cpu: Seq<char>,
    pub gpu: Seq<char>,
    pub wifi: StatusModel,
    pub bluetooth: StatusModel,
    pub sections: Seq<SectionModel>,
}

impl View for App {
    type V = AppModel;

    open spec fn view(&self) -> AppModel {
        AppModel {
            clock: self.clock@,
            cpu: self.system_info.0@,
            gpu: self.system_info.1@,
            wifi: self.wifi_status@,
            bluetooth: self.bluetooth_status@,
            sections: sections_view(self.window_list@),
        }
    }
}

impl AppModel {
    /// The bar after it has taken `reply` in. A reply replaces the one thing
    /// it speaks of and leaves the rest; a failed window query leaves
    /// everything.
    pub open spec fn absorbed(self, reply: Reply) -> AppModel {
        match reply {
            Reply::Clock(now) => AppModel {
                clock: clock_text_of(now.hour() as nat, now.minute() as nat),
                ..self
            },
            Reply::Windows(query) => match listed(query) {
                Ok(entries) => AppModel { sections: grouped(entries), ..self },
                Err(_) => self,
            },
            Reply::Cpu(content) => AppModel { cpu: cpu_text(content), ..self },
            Reply::Gpu(content) => AppModel { gpu: gpu_text(content), ..self },
            Reply::Power(ConnectivityTarget::Wifi, reading) => AppModel {
                wifi: status_of(ConnectivityTarget::Wifi, reading),
                ..self
            },
            Reply::Power(ConnectivityTarget::Bluetooth, reading) => AppModel {
                bluetooth: status_of(ConnectivityTarget::Bluetooth, reading),
                ..self
            },
        }
    }
}

/// The outside work that a message to the bar calls for, in the order in
/// which it is to be done.
pub open spec fn app_requests(message: AppMessage) -> Seq<Request> {
    match message {
        AppMessage::ClockUpdate => seq![Request::ReadClock],
        AppMessage::WindowListUpdate => seq![Request::ListWindows],
        AppMessage::SystemInfoUpdate => seq![Request::ReadCpu, Request::ReadGpu],
        AppMessage::ConnectivityUpdate => seq![
            Request::ReadPower(ConnectivityTarget::Wifi),
            Request::ReadPower(ConnectivityTarget::Bluetooth),
        ],
        AppMessage::SystemInfoClicked => seq![Request::ShowConfigWindow],
    }
}

/// The error that a reply reports, if it reports one: only a window query
/// can fail in a way that is told.
pub open spec fn reply_error(reply: Reply) -> Option<IpcError> {
    match reply {
        Reply::Windows(query) => match listed(query) {
            Ok(_) => None,
            Err(error) => Some(error),
        },
        _ => None,
    }
}

/// Whether the monitor at index `at` of `connectors` is plugged in at the
/// connector called `wanted`.
pub open spec fn is_connector(connectors: Seq<Option<String>>, at: int, wanted: Seq<char>) -> bool {
    connectors[at] matches Some(name) && name@ == wanted
}

/// Picks the monitor to show the bar on: the first one whose connector is
/// called `wanted`. A monitor without a connector name is never picked.
pub fn select_monitor(connectors: &Vec<Option<String>>, wanted: &str) -> (picked: Option<usize>)
    ensures
        match picked {
            Some(at) => at < connectors@.len() && is_connector(connectors@, at as int, wanted@)
                && forall|i: int| 0 <= i < at ==> !is_connector(connectors@, i, wanted@),
            None => forall|i: int|
                0 <= i < connectors@.len() ==> !is_connector(connectors@, i, wanted@),
        },
{
    let wanted_name = String::from_str(wanted);
    let mut at: usize = 0;
    while at < connectors.len()
        invariant
            at <= connectors@.len(),
            wanted_name@ == wanted@,
            forall|i: int| 0 <= i < at ==> !is_connector(connectors@, i, wanted@),
        decreases connectors.len() - at,
    {
        let found = match &connectors[at] {
            Some(name) => *name == wanted_name,
            None => false,
        };
        if found {
            return Some(at);
        }
        at += 1;
    }
    None
}

/// The ticks that drive the bar: the clock, the window list, the system
/// readings and the radios, each once a second.
pub open spec fn app_timers() -> Seq<Timer<AppMessage>> {
    seq![
        Timer { seconds: 1, message: AppMessage::ClockUpdate },
        Timer { seconds: 1, message: AppMessage::WindowListUpdate },
        Timer { seconds: 1, message: AppMessage::SystemInfoUpdate },
        Timer { seconds: 1, message: AppMessage::ConnectivityUpdate },
    ]
}

/// The timers to set up for the bar.
pub fn setup_timers() -> (timers: Vec<Timer<AppMessage>>)
    ensures
        timers@ == app_timers(),
{
    let mut timers: Vec<Timer<AppMessage>> = Vec::new();
    timers.push(Timer { seconds: 1, message: AppMessage::ClockUpdate });
    timers.push(Timer { seconds: 1, message: AppMessage::WindowListUpdate });
    timers.push(Timer { seconds: 1, message: AppMessage::SystemInfoUpdate });
    timers.push(Timer { seconds: 1, message: AppMessage::ConnectivityUpdate });
    assert(timers@ =~= app_timers());
    timers
}

impl App {
    /// The bar as it starts: the time of day as it was read, both usage
    /// readings unavailable and both radios unknown until a first reply tells
    /// more, and no sections.
    pub fn init(now: TimeOfDay) -> (app: App)
        ensures
            app@.clock == clock_text_of(now.hour() as nat, now.minute() as nat),
            app@.cpu == usage_text(None),
            app@.gpu == usage_text(None),
            app@.wifi == (StatusModel { enabled: false, label: label_unknown() }),
            app@.bluetooth == (StatusModel { enabled: false, label: label_unknown() }),
            app@.sections == Seq::<SectionModel>::empty(),
    {
        let app = App {
            clock: now.text(),
            system_info: (format_usage(None), format_usage(None)),
            wifi_status: ConnectivityStatus::unknown(),
            bluetooth_status: ConnectivityStatus::unknown(),
            window_list: Vec::new(),
        };
        assert(sections_view(app.window_list@) =~= Seq::<SectionModel>::empty());
        app
    }

    /// Tells which outside work a message calls for. What is shown changes
    /// only when the replies come in.
    pub fn update(&self, message: AppMessage) -> (requests: Vec<Request>)
        ensures
            requests@ == app_requests(message),
    {
        let mut requests: Vec<Request> = Vec::new();
        match message {
            AppMessage::ClockUpdate => {
                requests.push(Request::ReadClock);
            },
            AppMessage::WindowListUpdate => {
                requests.push(Request::ListWindows);
            },
            AppMessage::SystemInfoUpdate => {
                requests.push(Request::ReadCpu);
                requests.push(Request::ReadGpu);
            },
            AppMessage::ConnectivityUpdate => {
                requests.push(Request::ReadPower(ConnectivityTarget::Wifi));
                requests.push(Request::ReadPower(ConnectivityTarget::Bluetooth));
            },
            AppMessage::SystemInfoClicked => {
                requests.push(Request::ShowConfigWindow);
            },
        }
        assert(requests@ =~= app_requests(message));
        requests
    }

    /// Takes a reply in. The one thing that the reply speaks of is replaced
    /// by what the reply gives; a window query that failed is reported and
    /// leaves the bar as it was.
    pub fn absorb(&mut self, reply: Reply) -> (outcome: Result<(), IpcError>)
        ensures
            final(self)@ == old(self)@.absorbed(reply),
            match outcome {
                Ok(_) => reply_error(reply) is None,
                Err(error) => reply_error(reply) == Some(error) && final(self)@ == old(self)@,
            },
    {
        match reply {
            Reply::Clock(now) => {
                self.clock = now.text();
                Ok(())
            },
            Reply::Windows(query) => update_window_list(&mut self.window_list, &query),
            Reply::Cpu(content) => {
                self.system_info.0 = match &content {
                    Some(text) => read_cpu_usage(Some(text.as_str())),
                    None => read_cpu_usage(None),
                };
                Ok(())
            },
            Reply::Gpu(content) => {
                self.system_info.1 = match &content {
                    Some(text) => read_gpu_usage(Some(text.as_str())),
                    None => read_gpu_usage(None),
                };
                Ok(())
            },
            Reply::Power(ConnectivityTarget::Wifi, reading) => {
                self.wifi_status = read_wifi_status(&reading);
                Ok(())
            },
            Reply::Power(ConnectivityTarget::Bluetooth, reading) => {
                self.bluetooth_status = read_bluetooth_status(&reading);
                Ok(())
            },
        }
    }
}

/// Taking the same reply in twice shows what taking it in once shows: a
/// source that has not changed changes nothing on the bar.
pub proof fn lemma_absorb_twice(app: AppModel, reply: Reply)
    ensures
        app.absorbed(reply).absorbed(reply) == app.absorbed(reply),
{
}

/// What a reply puts on the bar does not depend on what the bar showed
/// before: two bars that take the same window list in show the same
/// sections.
pub proof fn lemma_sections_from_reply_alone(
    first: AppModel,
    second: AppModel,
    query: WindowQuery,
)
    requires
        listed(query) is Ok,
    ensures
        first.absorbed(Reply::Windows(query)).sections == second.absorbed(
            Reply::Windows(query),
        ).sections,
{
}

/// A window query that failed leaves the bar as it was, sections and all.
pub proof fn lemma_failed_query_keeps_all(app: AppModel, query: WindowQuery)
    requires
        listed(query) is Err,
    ensures
        app.absorbed(Reply::Windows(query)) == app,
{
}

} // verus!
