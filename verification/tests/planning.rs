//! Tests for the pure planning functions: config defaults, control-code
//! decisions, job-object limits, stream-open plans and the install plan.

use svcwrap::config::{
    ActionType, Config, ExistBehavior, JobObject, OutputStream, Process, Registration,
};
use svcwrap::control::{handle_control, ControlAck, ServiceControl};
use svcwrap::jobobjects::{
    limits_for, ExtendedLimitInformation, PriorityClass, JOB_OBJECT_LIMIT_KILL_ON_JOB_CLOSE,
    JOB_OBJECT_LIMIT_PRIORITY_CLASS,
};
use svcwrap::svc::{Service, StreamPlan};
use svcwrap::winsvc::install_plan;

#[test]
fn defaults_match_the_documented_ones() {
    assert_eq!(ExistBehavior::default(), ExistBehavior::Append);
    assert!(matches!(OutputStream::default(), OutputStream::Null));
    assert_eq!(ActionType::default(), ActionType::NoAction);
    let c = Config::default();
    assert_eq!(c.registration.name, "");
    assert!(c.job_object.is_none());
    assert!(c.restart.is_none());
    assert!(matches!(c.process.stdout, OutputStream::Null));
    assert!(matches!(c.process.stderr, OutputStream::Null));
}

#[test]
fn stop_is_acknowledged_and_forwarded() {
    let d = handle_control(ServiceControl::Stop);
    assert_eq!(d.ack, ControlAck::NoError);
    assert!(d.forward_stop);
}

#[test]
fn interrogate_is_a_success_no_op() {
    let d = handle_control(ServiceControl::Interrogate);
    assert_eq!(d.ack, ControlAck::NoError);
    assert!(!d.forward_stop);
}

#[test]
fn other_controls_are_not_implemented() {
    let d = handle_control(ServiceControl::Other);
    assert_eq!(d.ack, ControlAck::NotImplemented);
    assert!(!d.forward_stop);
}

#[test]
fn priority_classes_name_the_documented_constants() {
    assert_eq!(PriorityClass::Idle.class_value(), 0x40);
    assert_eq!(PriorityClass::BelowNormal.class_value(), 0x4000);
    assert_eq!(PriorityClass::Normal.class_value(), 0x20);
    assert_eq!(PriorityClass::AboveNormal.class_value(), 0x8000);
    assert_eq!(PriorityClass::High.class_value(), 0x80);
    assert_eq!(PriorityClass::Realtime.class_value(), 0x100);
}

#[test]
fn limit_information_sets_the_documented_bits() {
    let mut limits = ExtendedLimitInformation::new();
    assert_eq!(limits.limit_flags, 0);
    assert_eq!(limits.priority_class, 0);
    limits.set_kill_on_close();
    assert_eq!(limits.limit_flags, JOB_OBJECT_LIMIT_KILL_ON_JOB_CLOSE);
    limits.set_priority_class(PriorityClass::High);
    assert_eq!(
        limits.limit_flags,
        JOB_OBJECT_LIMIT_KILL_ON_JOB_CLOSE | JOB_OBJECT_LIMIT_PRIORITY_CLASS
    );
    assert_eq!(limits.priority_class, 0x80);
}

#[test]
fn limits_always_request_kill_on_close() {
    let bare = limits_for(&None);
    assert_eq!(bare.limit_flags, JOB_OBJECT_LIMIT_KILL_ON_JOB_CLOSE);
    assert_eq!(bare.priority_class, 0);

    let empty_policy = limits_for(&Some(JobObject { priority_class: None }));
    assert_eq!(empty_policy.limit_flags, JOB_OBJECT_LIMIT_KILL_ON_JOB_CLOSE);
    assert_eq!(empty_policy.priority_class, 0);

    let with_class = limits_for(&Some(JobObject { priority_class: Some(PriorityClass::Idle) }));
    assert_eq!(
        with_class.limit_flags,
        JOB_OBJECT_LIMIT_KILL_ON_JOB_CLOSE | JOB_OBJECT_LIMIT_PRIORITY_CLASS
    );
    assert_eq!(with_class.priority_class, 0x40);
}

#[test]
fn null_stream_is_discarded() {
    let p = Service::output_stream(&OutputStream::Null);
    assert_eq!(p, StreamPlan::UseNull);
}

#[test]
fn append_preserves_existing_content() {
    let p = Service::output_stream(&OutputStream::File {
        path: "out.log".to_string(),
        exist_behavior: ExistBehavior::Append,
    });
    assert_eq!(
        p,
        StreamPlan::OpenFile {
            path: "out.log".to_string(),
            write: true,
            create: true,
            append: true,
            truncate: false,
        }
    );
}

#[test]
fn truncate_discards_existing_content() {
    let p = Service::output_stream(&OutputStream::File {
        path: "err.log".to_string(),
        exist_behavior: ExistBehavior::Truncate,
    });
    assert_eq!(
        p,
        StreamPlan::OpenFile {
            path: "err.log".to_string(),
            write: true,
            create: true,
            append: false,
            truncate: true,
        }
    );
}

#[test]
fn install_plan_carries_the_identity_and_run_arguments() {
    let registration = Registration {
        name: "mysvc".to_string(),
        display_name: "My Service".to_string(),
        description: Some("a wrapped console program".to_string()),
    };
    let p = install_plan(
        &registration,
        "C:\\svc\\wrapper.exe".to_string(),
        "C:\\svc\\mysvc.toml".to_string(),
    );
    assert_eq!(p.name, "mysvc");
    assert_eq!(p.display_name, "My Service");
    assert_eq!(p.description.as_deref(), Some("a wrapped console program"));
    assert_eq!(p.executable_path, "C:\\svc\\wrapper.exe");
    assert_eq!(p.launch_arguments, vec!["run".to_string(), "C:\\svc\\mysvc.toml".to_string()]);
    assert!(p.auto_start);
}

#[test]
fn install_plan_without_description() {
    let registration = Registration {
        name: "svc2".to_string(),
        display_name: "Svc 2".to_string(),
        description: None,
    };
    let p = install_plan(&registration, "wrapper.exe".to_string(), "svc2.toml".to_string());
    assert_eq!(p.description, None);
    assert_eq!(p.launch_arguments, vec!["run".to_string(), "svc2.toml".to_string()]);
}

#[test]
fn a_full_config_round_trips_through_the_service() {
    let config = Config {
        winsvc: None,
        registration: Registration {
            name: "wrapped".to_string(),
            display_name: "Wrapped".to_string(),
            description: None,
        },
        process: Process {
            binary: "child.exe".to_string(),
            args: vec!["--flag".to_string()],
            working_directory: Some("C:\\work".to_string()),
            environment: vec![("KEY".to_string(), "VALUE".to_string())],
            stdout: OutputStream::Null,
            stderr: OutputStream::File {
                path: "err.log".to_string(),
                exist_behavior: ExistBehavior::Truncate,
            },
        },
        job_object: Some(JobObject { priority_class: Some(PriorityClass::BelowNormal) }),
        restart: None,
    };
    let s = Service::new(config);
    let c = s.config();
    assert_eq!(c.process.binary, "child.exe");
    assert_eq!(c.process.args, vec!["--flag".to_string()]);
    assert_eq!(c.process.working_directory.as_deref(), Some("C:\\work"));
    assert_eq!(c.registration.name, "wrapped");
}
