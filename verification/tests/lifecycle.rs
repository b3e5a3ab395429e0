//! Scenario tests for the service runtime: which reports a run delivers,
//! when terminate is called, and how each run ends.

use svcwrap::config::Config;
use svcwrap::control::ServiceControl;
use svcwrap::gensvc::{Handler, RecordingHandler};
use svcwrap::svc::{
    RunDisposition, RunEvent, Runtime, RuntimeError, RuntimeState, Service, StartOutcome,
    StatusReport, StepOutcome,
};

fn report(state: RuntimeState, accepts_stop: bool) -> StatusReport {
    StatusReport { state, accepts_stop }
}

fn service() -> Service {
    Service::new(Config::default())
}

#[test]
fn exit_immediately_reports_three_states() {
    let s = service();
    let events = vec![RunEvent::ChildExited];
    let log = s.run(StartOutcome::Started, &events);
    assert_eq!(
        log.reports,
        vec![
            report(RuntimeState::StartPending, false),
            report(RuntimeState::Running, true),
            report(RuntimeState::Stopped, false),
        ]
    );
    assert_eq!(log.terminate_calls, 0);
    assert_eq!(log.disposition, RunDisposition::Completed);
}

#[test]
fn exit_before_stop_never_terminates() {
    let s = service();
    let events = vec![
        RunEvent::Control(ServiceControl::Interrogate),
        RunEvent::Control(ServiceControl::Other),
        RunEvent::ChildExited,
    ];
    let log = s.run(StartOutcome::Started, &events);
    assert_eq!(
        log.reports,
        vec![
            report(RuntimeState::StartPending, false),
            report(RuntimeState::Running, true),
            report(RuntimeState::Stopped, false),
        ]
    );
    assert_eq!(log.terminate_calls, 0);
    assert_eq!(log.disposition, RunDisposition::Completed);
}

#[test]
fn no_stop_within_window_leaves_running() {
    let s = service();
    let events: Vec<RunEvent> = vec![];
    let log = s.run(StartOutcome::Started, &events);
    assert_eq!(
        log.reports,
        vec![
            report(RuntimeState::StartPending, false),
            report(RuntimeState::Running, true),
        ]
    );
    assert_eq!(log.terminate_calls, 0);
    assert_eq!(log.disposition, RunDisposition::Waiting);
}

#[test]
fn stop_then_exit_reports_four_states() {
    let s = service();
    let events = vec![RunEvent::Control(ServiceControl::Stop), RunEvent::ChildExited];
    let log = s.run(StartOutcome::Started, &events);
    assert_eq!(
        log.reports,
        vec![
            report(RuntimeState::StartPending, false),
            report(RuntimeState::Running, true),
            report(RuntimeState::StopPending, false),
            report(RuntimeState::Stopped, false),
        ]
    );
    assert_eq!(log.terminate_calls, 1);
    assert_eq!(log.disposition, RunDisposition::Completed);
}

#[test]
fn repeated_stop_terminates_once() {
    let s = service();
    let events = vec![
        RunEvent::Control(ServiceControl::Stop),
        RunEvent::Control(ServiceControl::Stop),
        RunEvent::Control(ServiceControl::Stop),
        RunEvent::ChildExited,
    ];
    let log = s.run(StartOutcome::Started, &events);
    assert_eq!(
        log.reports,
        vec![
            report(RuntimeState::StartPending, false),
            report(RuntimeState::Running, true),
            report(RuntimeState::StopPending, false),
            report(RuntimeState::Stopped, false),
        ]
    );
    assert_eq!(log.terminate_calls, 1);
    assert_eq!(log.disposition, RunDisposition::Completed);
}

#[test]
fn stop_without_exit_keeps_waiting() {
    let s = service();
    let events = vec![RunEvent::Control(ServiceControl::Stop)];
    let log = s.run(StartOutcome::Started, &events);
    assert_eq!(
        log.reports,
        vec![
            report(RuntimeState::StartPending, false),
            report(RuntimeState::Running, true),
            report(RuntimeState::StopPending, false),
        ]
    );
    assert_eq!(log.terminate_calls, 1);
    assert_eq!(log.disposition, RunDisposition::Waiting);
}

#[test]
fn events_after_exit_are_not_consumed() {
    let s = service();
    let events = vec![
        RunEvent::ChildExited,
        RunEvent::Control(ServiceControl::Stop),
        RunEvent::ChildExited,
    ];
    let log = s.run(StartOutcome::Started, &events);
    assert_eq!(
        log.reports,
        vec![
            report(RuntimeState::StartPending, false),
            report(RuntimeState::Running, true),
            report(RuntimeState::Stopped, false),
        ]
    );
    assert_eq!(log.terminate_calls, 0);
    assert_eq!(log.disposition, RunDisposition::Completed);
}

#[test]
fn spawn_failure_reports_nothing_beyond_start_pending() {
    let s = service();
    let events = vec![RunEvent::ChildExited];
    let log = s.run(StartOutcome::SpawnFailed(2), &events);
    assert_eq!(log.reports, vec![report(RuntimeState::StartPending, false)]);
    assert_eq!(log.terminate_calls, 0);
    assert_eq!(log.disposition, RunDisposition::Failed(RuntimeError::Spawn(2)));
}

#[test]
fn group_failure_is_a_resource_error() {
    let s = service();
    let log = s.run(StartOutcome::GroupFailed(5), &vec![]);
    assert_eq!(log.reports, vec![report(RuntimeState::StartPending, false)]);
    assert_eq!(log.disposition, RunDisposition::Failed(RuntimeError::Resource(5)));
}

#[test]
fn start_report_failure_is_a_control_error() {
    let s = service();
    let log = s.run(StartOutcome::StartReportFailed, &vec![]);
    assert_eq!(log.reports, Vec::new());
    assert_eq!(log.disposition, RunDisposition::Failed(RuntimeError::Control));
}

#[test]
fn running_report_failure_is_a_control_error() {
    let s = service();
    let log = s.run(StartOutcome::RunningReportFailed, &vec![]);
    assert_eq!(log.reports, vec![report(RuntimeState::StartPending, false)]);
    assert_eq!(log.disposition, RunDisposition::Failed(RuntimeError::Control));
}

#[test]
fn run_reported_delivers_every_report_in_order() {
    let s = service();
    let mut handler = RecordingHandler::new();
    let events = vec![RunEvent::Control(ServiceControl::Stop), RunEvent::ChildExited];
    let log = s.run_reported(&mut handler, StartOutcome::Started, &events).unwrap();
    assert_eq!(handler.log, log.reports);
    assert_eq!(
        handler.log,
        vec![
            report(RuntimeState::StartPending, false),
            report(RuntimeState::Running, true),
            report(RuntimeState::StopPending, false),
            report(RuntimeState::Stopped, false),
        ]
    );
}

#[test]
fn recording_handler_accepts_updates() {
    let mut handler = RecordingHandler::new();
    assert!(handler.update(RuntimeState::StartPending, false).is_ok());
    assert!(handler.update(RuntimeState::Running, true).is_ok());
    assert_eq!(
        handler.log,
        vec![
            report(RuntimeState::StartPending, false),
            report(RuntimeState::Running, true),
        ]
    );
}

#[test]
fn runtime_steps_through_stop_then_exit() {
    let mut rt = Runtime::new();
    assert_eq!(rt.state, RuntimeState::StartPending);
    rt.started();
    assert_eq!(rt.state, RuntimeState::Running);

    let out: StepOutcome = rt.on_event(RunEvent::Control(ServiceControl::Interrogate));
    assert_eq!(out.report, None);
    assert!(!out.terminate);
    assert!(!out.exit_loop);
    assert_eq!(rt.state, RuntimeState::Running);

    let out = rt.on_event(RunEvent::Control(ServiceControl::Stop));
    assert_eq!(out.report, Some(report(RuntimeState::StopPending, false)));
    assert!(out.terminate);
    assert!(!out.exit_loop);
    assert_eq!(rt.state, RuntimeState::StopPending);

    let out = rt.on_event(RunEvent::Control(ServiceControl::Stop));
    assert_eq!(out.report, None);
    assert!(!out.terminate);
    assert!(!out.exit_loop);
    assert_eq!(rt.state, RuntimeState::StopPending);

    let out = rt.on_event(RunEvent::ChildExited);
    assert_eq!(out.report, Some(report(RuntimeState::Stopped, false)));
    assert!(!out.terminate);
    assert!(out.exit_loop);
    assert_eq!(rt.state, RuntimeState::Stopped);
}
