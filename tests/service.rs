use ip_to_file::address::IpAddress;
use ip_to_file::cli::{Command, Options};
use ip_to_file::service::{
    handle_control, keep_waiting_for_deletion, Action, Control, ControlReply, Event, Phase,
    ServiceLoop, STOP_USER_CODE,
};

#[test]
fn control_requests_are_answered() {
    assert_eq!(handle_control(Control::Interrogate), (ControlReply::NoError, false));
    assert_eq!(handle_control(Control::Stop), (ControlReply::NoError, true));
    assert_eq!(handle_control(Control::UserEvent(130)), (ControlReply::NoError, true));
    assert_eq!(STOP_USER_CODE, 130);
    assert_eq!(handle_control(Control::UserEvent(129)), (ControlReply::NoError, false));
    assert_eq!(handle_control(Control::Other), (ControlReply::NotImplemented, false));
}

#[test]
fn deletion_wait_ends_after_five_seconds_or_when_gone() {
    assert!(keep_waiting_for_deletion(0, false));
    assert!(keep_waiting_for_deletion(4, false));
    assert!(!keep_waiting_for_deletion(5, false));
    assert!(!keep_waiting_for_deletion(1, true));
}

#[test]
fn poll_interval_defaults_to_fifteen_minutes() {
    assert_eq!(ServiceLoop::new(None).poll_seconds, 900);
    assert_eq!(ServiceLoop::new(Some(30)).poll_seconds, 30);
}

#[test]
fn a_tick_polls_writes_and_waits() {
    let mut l = ServiceLoop::new(Some(60));
    assert_eq!(l.phase, Phase::Starting);
    assert!(matches!(l.step(Event::Started), Action::Poll));
    assert_eq!(l.phase, Phase::Running);
    let addrs = vec![IpAddress::v4(10, 0, 0, 5), IpAddress::v4(127, 0, 0, 1)];
    match l.step(Event::Addresses(addrs)) {
        Action::Write(bytes) => {
            assert_eq!(String::from_utf8(bytes).unwrap(), "[\n    [\n        10.0.0.5,\n    ],\n]")
        }
        _ => panic!("expected a write"),
    }
    assert!(matches!(l.step(Event::Written), Action::Wait(60)));
    assert!(matches!(l.step(Event::Timeout), Action::Poll));
    assert!(matches!(l.step(Event::PollFailed), Action::Wait(60)));
    assert_eq!(l.history.len(), 1);
}

#[test]
fn stop_during_wait_exits_without_polling() {
    let mut l = ServiceLoop::new(None);
    assert!(matches!(l.step(Event::Started), Action::Poll));
    assert!(matches!(l.step(Event::Addresses(vec![])), Action::Write(_)));
    assert!(matches!(l.step(Event::Written), Action::Wait(900)));
    assert!(matches!(l.step(Event::StopSignal), Action::ReportStopped));
    assert_eq!(l.phase, Phase::Stopping);
    assert!(matches!(l.step(Event::Timeout), Action::Idle));
    assert!(matches!(l.step(Event::StopReported), Action::Exit));
    assert_eq!(l.phase, Phase::Stopped);
    assert!(matches!(l.step(Event::Timeout), Action::Exit));
}

#[test]
fn closed_stop_channel_also_stops() {
    let mut l = ServiceLoop::new(None);
    l.step(Event::Started);
    assert!(matches!(l.step(Event::Disconnected), Action::ReportStopped));
    assert_eq!(l.phase, Phase::Stopping);
}

fn opts() -> Options {
    Options {
        install: false,
        uninstall: false,
        restart: false,
        log_file: None,
        ip_log_file: None,
        time_delay: None,
        verbose: false,
    }
}

#[test]
fn command_precedence() {
    assert_eq!(opts().command(), Command::Run);
    assert_eq!(Options { install: true, uninstall: true, ..opts() }.command(), Command::Install);
    assert_eq!(Options { uninstall: true, restart: true, ..opts() }.command(), Command::Uninstall);
    assert_eq!(Options { restart: true, time_delay: Some(5), ..opts() }.command(), Command::Restart);
    assert_eq!(Options { time_delay: Some(5), ..opts() }.command(), Command::Configure);
    assert_eq!(Options { log_file: Some("a".to_string()), ..opts() }.command(), Command::Configure);
    assert_eq!(Options { ip_log_file: Some("b".to_string()), ..opts() }.command(), Command::Configure);
    assert!(opts().config_errors_are_fatal());
    assert!(!Options { install: true, ..opts() }.config_errors_are_fatal());
}
