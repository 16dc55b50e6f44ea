use adwbar::app::{select_monitor, setup_timers, App};
use adwbar::clock::TimeOfDay;
use adwbar::config_window::ConfigWindow;
use adwbar::connectivity::{BusReading, ConnectivityTarget};
use adwbar::messages::{AppMessage, ConfMessage, Timer};
use adwbar::sources::{Reply, Request};
use adwbar::window_list::{IpcError, Window, WindowQuery};

fn power(on: bool, links: &[&str]) -> BusReading {
    BusReading::Power { on, links: links.iter().map(|link| link.to_string()).collect() }
}

fn window(id: u64, workspace_id: u64) -> Window {
    Window { id, app_id: Some(format!("app{id}")), workspace_id: Some(workspace_id) }
}

fn time(hour: u32, minute: u32) -> TimeOfDay {
    TimeOfDay::new(hour, minute).unwrap()
}

fn start() -> App {
    App::init(time(12, 34))
}

fn is_clock_text(text: &str) -> bool {
    let b = text.as_bytes();
    b.len() == 5
        && b[0].is_ascii_digit()
        && b[1].is_ascii_digit()
        && b[2] == b':'
        && b[3].is_ascii_digit()
        && b[4].is_ascii_digit()
        && (b[0] - b'0') * 10 + (b[1] - b'0') < 24
        && (b[3] - b'0') * 10 + (b[4] - b'0') < 60
}

/// All that the bar shows, as plain values.
fn bar(app: &App) -> (String, String, String, (bool, String), (bool, String), Vec<(u64, Vec<u64>)>) {
    (
        app.clock.clone(),
        app.system_info.0.clone(),
        app.system_info.1.clone(),
        (app.wifi_status.enabled, app.wifi_status._status.clone()),
        (app.bluetooth_status.enabled, app.bluetooth_status._status.clone()),
        app.window_list
            .iter()
            .map(|s| (s.workspace_id, s.windows.iter().map(|w| w.window_id).collect()))
            .collect(),
    )
}

/// All that the control center shows, as plain values.
fn center(window: &ConfigWindow) -> ((bool, String), (bool, String), String, String) {
    (
        (window.wifi_status.enabled, window.wifi_status._status.clone()),
        (window.bluetooth_status.enabled, window.bluetooth_status._status.clone()),
        window.cpu_usage.clone(),
        window.gpu_usage.clone(),
    )
}

#[test]
fn the_bar_starts_with_the_time_and_nothing_known_of_the_rest() {
    let app = App::init(time(7, 5));
    assert_eq!(app.clock, "07:05");
    assert_eq!(app.system_info, ("N/A".to_string(), "N/A".to_string()));
    assert_eq!((app.wifi_status.enabled, app.wifi_status._status.as_str()), (false, "Unknown"));
    assert_eq!(
        (app.bluetooth_status.enabled, app.bluetooth_status._status.as_str()),
        (false, "Unknown")
    );
    assert!(app.window_list.is_empty());
    assert_eq!(App::init(time(0, 0)).clock, "00:00");
    assert_eq!(App::init(time(23, 59)).clock, "23:59");
}

#[test]
fn a_time_of_day_has_an_hour_below_24_and_a_minute_below_60() {
    for hour in 0..30u32 {
        for minute in 0..70u32 {
            let found = TimeOfDay::new(hour, minute);
            assert_eq!(found.is_some(), hour < 24 && minute < 60, "{hour}:{minute}");
            if let Some(found) = found {
                assert_eq!((found.hour(), found.minute()), (hour, minute));
            }
        }
    }
    assert!(TimeOfDay::new(24, 0).is_none());
    assert!(TimeOfDay::new(0, 60).is_none());
    assert!(TimeOfDay::new(u32::MAX, u32::MAX).is_none());
}

#[test]
fn a_time_of_day_is_written_with_two_digits_each() {
    for hour in 0..24u32 {
        for minute in 0..60u32 {
            let text = time(hour, minute).text();
            assert_eq!(text, format!("{hour:02}:{minute:02}"));
            assert!(is_clock_text(&text), "{text:?}");
        }
    }
}

#[test]
fn a_clock_tick_asks_for_the_time_and_changes_nothing() {
    let app = start();
    let before = bar(&app);
    assert_eq!(app.update(AppMessage::ClockUpdate), vec![Request::ReadClock]);
    assert_eq!(bar(&app), before);
}

#[test]
fn a_clock_reply_sets_the_clock_and_nothing_else() {
    let mut app = start();
    app.absorb(Reply::Cpu(Some("cpu 1 1 1 1".to_string()))).unwrap();
    let mut expected = bar(&app);
    assert_eq!(expected.0, "12:34");
    assert_eq!(app.absorb(Reply::Clock(time(23, 59))), Ok(()));
    expected.0 = "23:59".to_string();
    assert_eq!(bar(&app), expected);
    assert_eq!(app.absorb(Reply::Clock(time(0, 0))), Ok(()));
    expected.0 = "00:00".to_string();
    assert_eq!(bar(&app), expected);
    assert_eq!(app.absorb(Reply::Clock(time(9, 8))), Ok(()));
    expected.0 = "09:08".to_string();
    assert_eq!(bar(&app), expected);
}

#[test]
fn each_tick_asks_for_its_own_source() {
    let app = start();
    let before = bar(&app);
    assert_eq!(app.update(AppMessage::WindowListUpdate), vec![Request::ListWindows]);
    assert_eq!(app.update(AppMessage::SystemInfoUpdate), vec![Request::ReadCpu, Request::ReadGpu]);
    assert_eq!(
        app.update(AppMessage::ConnectivityUpdate),
        vec![
            Request::ReadPower(ConnectivityTarget::Wifi),
            Request::ReadPower(ConnectivityTarget::Bluetooth)
        ]
    );
    assert_eq!(app.update(AppMessage::SystemInfoClicked), vec![Request::ShowConfigWindow]);
    assert_eq!(bar(&app), before);
}

#[test]
fn the_bar_ticks_four_times_a_second_in_all() {
    assert_eq!(
        setup_timers(),
        vec![
            Timer { seconds: 1, message: AppMessage::ClockUpdate },
            Timer { seconds: 1, message: AppMessage::WindowListUpdate },
            Timer { seconds: 1, message: AppMessage::SystemInfoUpdate },
            Timer { seconds: 1, message: AppMessage::ConnectivityUpdate },
        ]
    );
    assert_eq!(
        ConfigWindow::refresh_timer(),
        Timer { seconds: 2, message: ConfMessage::UpdateStatus }
    );
}

#[test]
fn requests_that_read_a_file_name_it() {
    assert_eq!(Request::ReadClock.path(), None);
    assert_eq!(Request::ReadCpu.path(), Some("/proc/stat"));
    assert_eq!(Request::ReadGpu.path(), Some("/sys/class/drm/card0/device/gpu_busy_percent"));
    assert_eq!(Request::ListWindows.path(), None);
    assert_eq!(Request::ReadPower(ConnectivityTarget::Wifi).path(), None);
    assert_eq!(Request::WritePower(ConnectivityTarget::Bluetooth, true).path(), None);
    assert_eq!(Request::FocusWindow(1).path(), None);
    assert_eq!(Request::ShowConfigWindow.path(), None);
}

#[test]
fn a_reply_replaces_what_it_speaks_of_and_nothing_else() {
    let mut app = start();
    let start = bar(&app);

    assert_eq!(app.absorb(Reply::Cpu(Some("cpu 1 2 3 4".to_string()))), Ok(()));
    let mut expected = start.clone();
    expected.1 = "60%".to_string();
    assert_eq!(bar(&app), expected);

    assert_eq!(app.absorb(Reply::Gpu(Some("17\n".to_string()))), Ok(()));
    expected.2 = "17%".to_string();
    assert_eq!(bar(&app), expected);

    assert_eq!(app.absorb(Reply::Power(ConnectivityTarget::Wifi, power(true, &["/active/1"]))), Ok(()));
    expected.3 = (true, "Connected".to_string());
    assert_eq!(bar(&app), expected);

    assert_eq!(app.absorb(Reply::Power(ConnectivityTarget::Bluetooth, power(true, &["/active/1"]))), Ok(()));
    expected.4 = (true, "Enabled".to_string());
    assert_eq!(bar(&app), expected);

    let query = WindowQuery::Windows(vec![window(1, 2), window(2, 1), window(3, 2)]);
    assert_eq!(app.absorb(Reply::Windows(query)), Ok(()));
    expected.5 = vec![(1, vec![2]), (2, vec![1, 3])];
    assert_eq!(bar(&app), expected);

    assert_eq!(app.absorb(Reply::Cpu(None)), Ok(()));
    expected.1 = "N/A".to_string();
    assert_eq!(app.absorb(Reply::Gpu(Some("none".to_string()))), Ok(()));
    expected.2 = "N/A".to_string();
    assert_eq!(app.absorb(Reply::Power(ConnectivityTarget::Wifi, BusReading::Unreachable)), Ok(()));
    expected.3 = (false, "N/A".to_string());
    assert_eq!(app.absorb(Reply::Power(ConnectivityTarget::Bluetooth, BusReading::Unreadable)), Ok(()));
    expected.4 = (false, "Unknown".to_string());
    assert_eq!(bar(&app), expected);
}

#[test]
fn a_failed_window_query_leaves_the_bar_as_it_was() {
    let mut app = start();
    app.absorb(Reply::Windows(WindowQuery::Windows(vec![window(1, 2), window(2, 1)]))).unwrap();
    app.absorb(Reply::Cpu(Some("cpu 1 1 1 1".to_string()))).unwrap();
    let before = bar(&app);
    assert_eq!(before.5, vec![(1, vec![2]), (2, vec![1])]);
    assert_eq!(
        app.absorb(Reply::Windows(WindowQuery::Unreachable)),
        Err(IpcError::SourceUnavailable)
    );
    assert_eq!(bar(&app), before);
    assert_eq!(
        app.absorb(Reply::Windows(WindowQuery::Unexpected)),
        Err(IpcError::ProtocolMismatch)
    );
    assert_eq!(bar(&app), before);
}

#[test]
fn an_empty_window_list_empties_the_bar() {
    let mut app = start();
    app.absorb(Reply::Windows(WindowQuery::Windows(vec![window(1, 2)]))).unwrap();
    assert_eq!(app.absorb(Reply::Windows(WindowQuery::Windows(Vec::new()))), Ok(()));
    assert!(app.window_list.is_empty());
}

#[test]
fn the_same_reply_twice_changes_nothing_the_second_time() {
    let replies = vec![
        Reply::Clock(time(6, 30)),
        Reply::Windows(WindowQuery::Windows(vec![window(1, 2), window(2, 1), window(3, 2)])),
        Reply::Windows(WindowQuery::Unreachable),
        Reply::Cpu(Some("cpu 5 5 5 5".to_string())),
        Reply::Cpu(None),
        Reply::Gpu(Some("99".to_string())),
        Reply::Power(ConnectivityTarget::Wifi, power(true, &["/active/1"])),
        Reply::Power(ConnectivityTarget::Bluetooth, power(false, &[])),
    ];
    let mut app = start();
    let mut window = ConfigWindow::init(&BusReading::Unreadable, &BusReading::Unreadable, None, None);
    for reply in replies {
        let _ = app.absorb(reply.clone());
        window.absorb(reply.clone());
        let (once, once_center) = (bar(&app), center(&window));
        let _ = app.absorb(reply.clone());
        window.absorb(reply);
        assert_eq!(bar(&app), once);
        assert_eq!(center(&window), once_center);
    }
}

#[test]
fn the_control_center_starts_from_one_reading_of_each_source() {
    let window = ConfigWindow::init(
        &power(true, &["/active/1"]),
        &power(false, &[]),
        Some("cpu 3 0 0 1"),
        Some("55\n"),
    );
    assert_eq!(
        center(&window),
        (
            (true, "Connected".to_string()),
            (false, "Disabled".to_string()),
            "75%".to_string(),
            "55%".to_string()
        )
    );
    let window = ConfigWindow::init(&BusReading::Unreachable, &BusReading::Unreadable, None, None);
    assert_eq!(
        center(&window),
        (
            (false, "N/A".to_string()),
            (false, "Unknown".to_string()),
            "N/A".to_string(),
            "N/A".to_string()
        )
    );
}

#[test]
fn a_refresh_reads_all_four_sources() {
    let window = ConfigWindow::init(&BusReading::Unreadable, &BusReading::Unreadable, None, None);
    assert_eq!(
        window.update(ConfMessage::UpdateStatus),
        vec![
            Request::ReadPower(ConnectivityTarget::Wifi),
            Request::ReadPower(ConnectivityTarget::Bluetooth),
            Request::ReadCpu,
            Request::ReadGpu,
        ]
    );
}

#[test]
fn a_switch_is_written_and_then_read_back() {
    let window = ConfigWindow::init(&BusReading::Unreadable, &BusReading::Unreadable, None, None);
    for enabled in [true, false] {
        assert_eq!(
            window.update(ConfMessage::ToggleWifi(enabled)),
            vec![
                Request::WritePower(ConnectivityTarget::Wifi, enabled),
                Request::ReadPower(ConnectivityTarget::Wifi),
            ]
        );
        assert_eq!(
            window.update(ConfMessage::ToggleBluetooth(enabled)),
            vec![
                Request::WritePower(ConnectivityTarget::Bluetooth, enabled),
                Request::ReadPower(ConnectivityTarget::Bluetooth),
            ]
        );
    }
}

#[test]
fn a_switch_that_did_not_take_shows_the_radio_as_it_is() {
    let mut window = ConfigWindow::init(&power(false, &[]), &power(false, &[]), None, None);
    let before = center(&window);
    // The user asks for Wi-Fi; the write fails; the radio still reads as off.
    let requests = window.update(ConfMessage::ToggleWifi(true));
    assert_eq!(requests.last(), Some(&Request::ReadPower(ConnectivityTarget::Wifi)));
    assert_eq!(center(&window), before);
    window.absorb(Reply::Power(ConnectivityTarget::Wifi, power(false, &[])));
    assert_eq!(window.wifi_status.enabled, false);
    assert_eq!(window.wifi_status._status, "Disabled");
    assert_eq!(center(&window), before);
    // The same for Bluetooth, and with a bus that went away meanwhile.
    window.update(ConfMessage::ToggleBluetooth(true));
    window.absorb(Reply::Power(ConnectivityTarget::Bluetooth, BusReading::Unreachable));
    assert_eq!((window.bluetooth_status.enabled, window.bluetooth_status._status.as_str()), (false, "N/A"));
}

#[test]
fn a_switch_that_took_shows_the_new_state() {
    let mut window = ConfigWindow::init(&power(false, &[]), &power(true, &[]), None, None);
    window.update(ConfMessage::ToggleWifi(true));
    window.absorb(Reply::Power(ConnectivityTarget::Wifi, power(true, &[])));
    assert_eq!((window.wifi_status.enabled, window.wifi_status._status.as_str()), (true, "Enabled"));
    window.update(ConfMessage::ToggleBluetooth(false));
    window.absorb(Reply::Power(ConnectivityTarget::Bluetooth, power(false, &[])));
    assert_eq!(
        (window.bluetooth_status.enabled, window.bluetooth_status._status.as_str()),
        (false, "Disabled")
    );
}

#[test]
fn the_control_center_takes_no_notice_of_the_clock_or_windows() {
    let mut window = ConfigWindow::init(&power(true, &[]), &power(true, &[]), Some("cpu 1 1 1 1"), Some("3"));
    let before = center(&window);
    window.absorb(Reply::Clock(time(1, 2)));
    window.absorb(Reply::Windows(WindowQuery::Windows(vec![window_of(1)])));
    window.absorb(Reply::Windows(WindowQuery::Unreachable));
    assert_eq!(center(&window), before);
}

fn window_of(id: u64) -> Window {
    window(id, 1)
}

#[test]
fn the_first_monitor_at_the_wanted_connector_is_picked() {
    let connectors = vec![
        Some("eDP-1".to_string()),
        None,
        Some("HDMI-A-1".to_string()),
        Some("DP-1".to_string()),
        Some("HDMI-A-1".to_string()),
    ];
    assert_eq!(select_monitor(&connectors, "eDP-1"), Some(0));
    assert_eq!(select_monitor(&connectors, "HDMI-A-1"), Some(2));
    assert_eq!(select_monitor(&connectors, "DP-1"), Some(3));
}

#[test]
fn no_monitor_is_picked_where_none_is_at_the_wanted_connector() {
    let connectors = vec![Some("eDP-1".to_string()), None, Some("DP-1".to_string())];
    assert_eq!(select_monitor(&connectors, "HDMI-A-1"), None);
    assert_eq!(select_monitor(&connectors, "dp-1"), None);
    assert_eq!(select_monitor(&connectors, "DP-1 "), None);
    assert_eq!(select_monitor(&connectors, ""), None);
    assert_eq!(select_monitor(&Vec::new(), "eDP-1"), None);
    assert_eq!(select_monitor(&vec![None], ""), None);
}
