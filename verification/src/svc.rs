//! The service runtime: a state machine that correlates controller stop
//! requests with the child-process exit notification and reports lifecycle
//! transitions in strict program order.  Everything here is a decision on
//! plain values; the platform binding performs the reports, the terminate
//! call and the blocking waits, and feeds the observed events back in.

use vstd::prelude::*;
use crate::config::{Config, ExistBehavior, OutputStream};
use crate::control::ServiceControl;

verus! {

/// Lifecycle state reported to the controller.  Within one run the state
/// moves strictly forward: StartPending, Running, optionally StopPending,
/// then Stopped.
#[derive(Debug, Clone, Copy, PartialEq, Eq, Structural)]
pub enum RuntimeState {
    StartPending,
    Running,
    StopPending,
    Stopped,
}

/// One synchronous status report: the state pushed to the controller and
/// whether stop requests are accepted from now on.
#[derive(Debug, Clone, Copy, PartialEq, Eq, Structural)]
pub struct StatusReport {
    pub state: RuntimeState,
    pub accepts_stop: bool,
}

/// An event the runtime's wait can observe: a forwarded control
/// notification, or the one-shot exit notification of the child.
#[derive(Debug, Clone, Copy, PartialEq, Eq, Structural)]
pub enum RunEvent {
    Control(ServiceControl),
    ChildExited,
}

/// Why a run failed: the process group could not be created or configured,
/// the child could not be spawned — each carrying the underlying OS error
/// code — or the controller connection failed.
#[derive(Debug, Clone, Copy, PartialEq, Eq, Structural)]
pub enum RuntimeError {
    Resource(i32),
    Spawn(i32),
    Control,
}

/// How a run ended: the child exit was observed and Stopped was reported,
/// the event source ran dry while the child was still alive, or a fatal
/// step failed.
#[derive(Debug, Clone, Copy, PartialEq, Eq, Structural)]
pub enum RunDisposition {
    Completed,
    Waiting,
    Failed(RuntimeError),
}

/// What the platform reported about the start phase: every step up to and
/// including the Running report succeeded, or the first failing step, with
/// the OS error code where one exists.
#[derive(Debug, Clone, Copy, PartialEq, Eq, Structural)]
pub enum StartOutcome {
    Started,
    StartReportFailed,
    GroupFailed(i32),
    SpawnFailed(i32),
    RunningReportFailed,
}

/// The report that announces the start phase; no controls are accepted yet.
pub open spec fn start_pending_report() -> StatusReport {
    StatusReport { state: RuntimeState::StartPending, accepts_stop: false }
}

/// The report that announces the child is supervised; stop is now accepted.
pub open spec fn running_report() -> StatusReport {
    StatusReport { state: RuntimeState::Running, accepts_stop: true }
}

/// The report that announces a stop is in progress; a repeated stop is no
/// longer accepted.
pub open spec fn stop_pending_report() -> StatusReport {
    StatusReport { state: RuntimeState::StopPending, accepts_stop: false }
}

/// The terminal report.
pub open spec fn stopped_report() -> StatusReport {
    StatusReport { state: RuntimeState::Stopped, accepts_stop: false }
}

/// The state after observing one event while supervising.  An exit
/// notification ends the run from either live state; the first stop request
/// moves Running to StopPending; everything else changes nothing.
pub open spec fn step_state(s: RuntimeState, ev: RunEvent) -> RuntimeState {
    match (s, ev) {
        (RuntimeState::Running, RunEvent::ChildExited) => RuntimeState::Stopped,
        (RuntimeState::Running, RunEvent::Control(ServiceControl::Stop)) => RuntimeState::StopPending,
        (RuntimeState::StopPending, RunEvent::ChildExited) => RuntimeState::Stopped,
        _ => s,
    }
}

/// The actions one event demands: at most one status report, whether the
/// child is to be terminated, and whether the supervising wait ends.
#[derive(Debug, Clone, Copy)]
pub struct StepOutcome {
    pub report: Option<StatusReport>,
    pub terminate: bool,
    pub exit_loop: bool,
}

/// The outcome for one event: an exit notification reports Stopped and ends
/// the run; a stop request in Running reports StopPending and demands the
/// one terminate call; a stop request in StopPending is ignored, as is any
/// other control.
pub open spec fn step_outcome_spec(s: RuntimeState, ev: RunEvent) -> StepOutcome {
    match (s, ev) {
        (RuntimeState::Running, RunEvent::ChildExited) => StepOutcome {
            report: Some(stopped_report()),
            terminate: false,
            exit_loop: true,
        },
        (RuntimeState::Running, RunEvent::Control(ServiceControl::Stop)) => StepOutcome {
            report: Some(stop_pending_report()),
            terminate: true,
            exit_loop: false,
        },
        (RuntimeState::StopPending, RunEvent::ChildExited) => StepOutcome {
            report: Some(stopped_report()),
            terminate: false,
            exit_loop: true,
        },
        _ => StepOutcome { report: None, terminate: false, exit_loop: false },
    }
}

/// The state machine itself, advanced one observed event at a time.  The
/// platform binding holds one of these, performs what each `StepOutcome`
/// demands, and stops calling once `exit_loop` is set.
#[derive(Debug, Clone, Copy)]
pub struct Runtime {
    pub state: RuntimeState,
}

impl Runtime {
    /// A fresh run starts in StartPending.
    pub fn new() -> (r: Runtime)
        ensures
            r.state == RuntimeState::StartPending,
    {
        Runtime { state: RuntimeState::StartPending }
    }

    /// Record that the process group exists, the child is spawned and the
    /// Running report was delivered.
    pub fn started(&mut self)
        requires
            old(self).state == RuntimeState::StartPending,
        ensures
            final(self).state == RuntimeState::Running,
    {
        self.state = RuntimeState::Running;
    }

    /// Advance by one observed event and return the actions it demands.
    pub fn on_event(&mut self, ev: RunEvent) -> (out: StepOutcome)
        requires
            old(self).state == RuntimeState::Running || old(self).state
                == RuntimeState::StopPending,
        ensures
            final(self).state == step_state(old(self).state, ev),
            out == step_outcome_spec(old(self).state, ev),
    {
        match (self.state, ev) {
            (RuntimeState::Running, RunEvent::ChildExited) => {
                self.state = RuntimeState::Stopped;
                StepOutcome {
                    report: Some(
                        StatusReport { state: RuntimeState::Stopped, accepts_stop: false },
                    ),
                    terminate: false,
                    exit_loop: true,
                }
            },
            (RuntimeState::Running, RunEvent::Control(ServiceControl::Stop)) => {
                self.state = RuntimeState::StopPending;
                StepOutcome {
                    report: Some(
                        StatusReport { state: RuntimeState::StopPending, accepts_stop: false },
                    ),
                    terminate: true,
                    exit_loop: false,
                }
            },
            (RuntimeState::StopPending, RunEvent::ChildExited) => {
                self.state = RuntimeState::Stopped;
                StepOutcome {
                    report: Some(
                        StatusReport { state: RuntimeState::Stopped, accepts_stop: false },
                    ),
                    terminate: false,
                    exit_loop: true,
                }
            },
            _ => StepOutcome { report: None, terminate: false, exit_loop: false },
        }
    }
}

/// The reports the supervising wait delivers from state `s` on the event
/// sequence `events`, in order, stopping at the first exit notification.
pub open spec fn loop_reports(s: RuntimeState, events: Seq<RunEvent>) -> Seq<StatusReport>
    decreases events.len(),
{
    if events.len() == 0 {
        Seq::empty()
    } else {
        let out = step_outcome_spec(s, events[0]);
        let head = match out.report {
            Some(r) => seq![r],
            None => Seq::empty(),
        };
        if out.exit_loop {
            head
        } else {
            head + loop_reports(step_state(s, events[0]), events.skip(1))
        }
    }
}

/// How many terminate calls the supervising wait issues from state `s` on
/// the event sequence `events`.
pub open spec fn loop_terminates(s: RuntimeState, events: Seq<RunEvent>) -> nat
    decreases events.len(),
{
    if events.len() == 0 {
        0
    } else {
        let out = step_outcome_spec(s, events[0]);
        let here: nat = if out.terminate {
            1
        } else {
            0
        };
        if out.exit_loop {
            here
        } else {
            here + loop_terminates(step_state(s, events[0]), events.skip(1))
        }
    }
}

/// Whether the supervising wait ends within `events`, i.e. an exit
/// notification is reached.
pub open spec fn loop_done(s: RuntimeState, events: Seq<RunEvent>) -> bool
    decreases events.len(),
{
    if events.len() == 0 {
        false
    } else {
        let out = step_outcome_spec(s, events[0]);
        out.exit_loop || loop_done(step_state(s, events[0]), events.skip(1))
    }
}

/// All reports one run delivers, for each way the start phase can go.  A
/// failed start-pending report delivers nothing; any later start failure
/// leaves exactly the start-pending report; a successful start delivers
/// StartPending, Running, and then whatever the supervising wait adds.
pub open spec fn run_reports(start: StartOutcome, events: Seq<RunEvent>) -> Seq<StatusReport> {
    match start {
        StartOutcome::StartReportFailed => Seq::empty(),
        StartOutcome::GroupFailed(_) => seq![start_pending_report()],
        StartOutcome::SpawnFailed(_) => seq![start_pending_report()],
        StartOutcome::RunningReportFailed => seq![start_pending_report()],
        StartOutcome::Started => seq![start_pending_report(), running_report()] + loop_reports(
            RuntimeState::Running,
            events,
        ),
    }
}

/// How many terminate calls one run issues.
pub open spec fn run_terminates(start: StartOutcome, events: Seq<RunEvent>) -> nat {
    match start {
        StartOutcome::Started => loop_terminates(RuntimeState::Running, events),
        _ => 0,
    }
}

/// How one run ends: each start failure maps to its error, and a started
/// run completes exactly when the exit notification is reached.
pub open spec fn run_disposition(start: StartOutcome, events: Seq<RunEvent>) -> RunDisposition {
    match start {
        StartOutcome::StartReportFailed => RunDisposition::Failed(RuntimeError::Control),
        StartOutcome::GroupFailed(code) => RunDisposition::Failed(RuntimeError::Resource(code)),
        StartOutcome::SpawnFailed(code) => RunDisposition::Failed(RuntimeError::Spawn(code)),
        StartOutcome::RunningReportFailed => RunDisposition::Failed(RuntimeError::Control),
        StartOutcome::Started => if loop_done(RuntimeState::Running, events) {
            RunDisposition::Completed
        } else {
            RunDisposition::Waiting
        },
    }
}

/// Everything one run did, in the order it did it: the reports delivered to
/// the controller, the number of terminate calls issued, and how the run
/// ended.
#[derive(Debug)]
pub struct RunLog {
    pub reports: Vec<StatusReport>,
    pub terminate_calls: usize,
    pub disposition: RunDisposition,
}

/// In StopPending no further terminate call is ever issued.
proof fn lemma_stop_pending_never_terminates(events: Seq<RunEvent>)
    ensures
        loop_terminates(RuntimeState::StopPending, events) == 0,
    decreases events.len(),
{
    if events.len() > 0 {
        let out = step_outcome_spec(RuntimeState::StopPending, events[0]);
        if !out.exit_loop {
            lemma_stop_pending_never_terminates(events.skip(1));
        }
    }
}

/// From any live state the whole wait issues at most one terminate call.
pub proof fn lemma_at_most_one_terminate(s: RuntimeState, events: Seq<RunEvent>)
    requires
        s == RuntimeState::Running || s == RuntimeState::StopPending,
    ensures
        loop_terminates(s, events) <= 1,
    decreases events.len(),
{
    if events.len() > 0 {
        let out = step_outcome_spec(s, events[0]);
        if !out.exit_loop {
            let s2 = step_state(s, events[0]);
            if out.terminate {
                lemma_stop_pending_never_terminates(events.skip(1));
            } else {
                lemma_at_most_one_terminate(s2, events.skip(1));
            }
        }
    }
}

/// From any live state the wait delivers one of four report sequences:
/// nothing yet, Stopped alone, StopPending alone, or StopPending then
/// Stopped — and the latter two only from Running.
proof fn lemma_loop_reports_shape(s: RuntimeState, events: Seq<RunEvent>)
    requires
        s == RuntimeState::Running || s == RuntimeState::StopPending,
    ensures
        loop_reports(s, events) == Seq::<StatusReport>::empty() || loop_reports(s, events)
            == seq![stopped_report()] || (s == RuntimeState::Running && (loop_reports(s, events)
            == seq![stop_pending_report()] || loop_reports(s, events) == seq![
            stop_pending_report(),
            stopped_report(),
        ])),
    decreases events.len(),
{
    if events.len() > 0 {
        let ev = events[0];
        let out = step_outcome_spec(s, ev);
        let s2 = step_state(s, ev);
        if out.exit_loop {
            assert(loop_reports(s, events) =~= seq![stopped_report()]);
        } else {
            lemma_loop_reports_shape(s2, events.skip(1));
            let rest = loop_reports(s2, events.skip(1));
            if s == RuntimeState::Running && ev == RunEvent::Control(ServiceControl::Stop) {
                if rest == Seq::<StatusReport>::empty() {
                    assert(loop_reports(s, events) =~= seq![stop_pending_report()]);
                } else {
                    assert(loop_reports(s, events) =~= seq![
                        stop_pending_report(),
                        stopped_report(),
                    ]);
                }
            } else {
                assert(loop_reports(s, events) =~= rest);
            }
        }
    }
}

/// The wait ends exactly when the events hold an exit notification.
proof fn lemma_loop_done_iff_exit(s: RuntimeState, events: Seq<RunEvent>)
    requires
        s == RuntimeState::Running || s == RuntimeState::StopPending,
    ensures
        loop_done(s, events) <==> (exists|k: int|
            0 <= k < events.len() && events[k] == RunEvent::ChildExited),
    decreases events.len(),
{
    if events.len() > 0 {
        let ev = events[0];
        let out = step_outcome_spec(s, ev);
        if out.exit_loop {
            assert(events[0] == RunEvent::ChildExited);
        } else {
            let s2 = step_state(s, ev);
            lemma_loop_done_iff_exit(s2, events.skip(1));
            if loop_done(s2, events.skip(1)) {
                let k = choose|k: int|
                    0 <= k < events.skip(1).len() && events.skip(1)[k] == RunEvent::ChildExited;
                assert(events[k + 1] == RunEvent::ChildExited);
            } else {
                assert forall|k: int|
                    0 <= k < events.len() implies events[k] != RunEvent::ChildExited by {
                    if k >= 1 {
                        assert(events.skip(1)[k - 1] == events[k]);
                    }
                }
            }
        }
    }
}

/// The Stopped report is delivered exactly when the wait ends.
proof fn lemma_stopped_iff_done(s: RuntimeState, events: Seq<RunEvent>)
    requires
        s == RuntimeState::Running || s == RuntimeState::StopPending,
    ensures
        loop_reports(s, events).contains(stopped_report()) <==> loop_done(s, events),
    decreases events.len(),
{
    if events.len() > 0 {
        let ev = events[0];
        let out = step_outcome_spec(s, ev);
        let s2 = step_state(s, ev);
        if out.exit_loop {
            assert(loop_reports(s, events) =~= seq![stopped_report()]);
            assert(seq![stopped_report()][0] == stopped_report());
        } else {
            lemma_stopped_iff_done(s2, events.skip(1));
            let rest = loop_reports(s2, events.skip(1));
            let head: Seq<StatusReport> = match out.report {
                Some(r) => seq![r],
                None => Seq::empty(),
            };
            assert(loop_reports(s, events) == head + rest);
            assert(forall|j: int| 0 <= j < head.len() ==> head[j] != stopped_report());
            lemma_concat_contains_stopped(head, rest);
        }
    }
}

/// Appending to a prefix free of the Stopped report neither adds nor hides
/// an occurrence of it.
proof fn lemma_concat_contains_stopped(prefix: Seq<StatusReport>, rest: Seq<StatusReport>)
    requires
        forall|j: int| 0 <= j < prefix.len() ==> prefix[j] != stopped_report(),
    ensures
        (prefix + rest).contains(stopped_report()) <==> rest.contains(stopped_report()),
{
    if rest.contains(stopped_report()) {
        let k = choose|k: int| 0 <= k < rest.len() && rest[k] == stopped_report();
        assert((prefix + rest)[prefix.len() + k] == stopped_report());
    }
    if (prefix + rest).contains(stopped_report()) {
        let k = choose|k: int|
            0 <= k < (prefix + rest).len() && (prefix + rest)[k] == stopped_report();
        if k >= prefix.len() {
            assert(rest[k - prefix.len()] == stopped_report());
        }
    }
}

/// Status reports follow the lifecycle in order — StartPending, Running,
/// optionally StopPending, Stopped — never reordered and never skipped,
/// with stop accepted exactly while Running.  Every start outcome and every
/// event sequence produces one of these six prefixes.
pub proof fn lemma_status_order(start: StartOutcome, events: Seq<RunEvent>)
    ensures
        ({
            let rs = run_reports(start, events);
            ||| rs == Seq::<StatusReport>::empty()
            ||| rs == seq![start_pending_report()]
            ||| rs == seq![start_pending_report(), running_report()]
            ||| rs == seq![start_pending_report(), running_report(), stopped_report()]
            ||| rs == seq![start_pending_report(), running_report(), stop_pending_report()]
            ||| rs == seq![
                start_pending_report(),
                running_report(),
                stop_pending_report(),
                stopped_report(),
            ]
        }),
{
    match start {
        StartOutcome::Started => {
            lemma_loop_reports_shape(RuntimeState::Running, events);
            let lr = loop_reports(RuntimeState::Running, events);
            if lr == Seq::<StatusReport>::empty() {
                assert(run_reports(start, events) =~= seq![
                    start_pending_report(),
                    running_report(),
                ]);
            } else if lr == seq![stopped_report()] {
                assert(run_reports(start, events) =~= seq![
                    start_pending_report(),
                    running_report(),
                    stopped_report(),
                ]);
            } else if lr == seq![stop_pending_report()] {
                assert(run_reports(start, events) =~= seq![
                    start_pending_report(),
                    running_report(),
                    stop_pending_report(),
                ]);
            } else {
                assert(run_reports(start, events) =~= seq![
                    start_pending_report(),
                    running_report(),
                    stop_pending_report(),
                    stopped_report(),
                ]);
            }
        },
        _ => {},
    }
}

/// When the child exits before any stop request reaches the wait, the
/// reports from there on are exactly the Stopped report, the wait ends, and
/// no terminate call is ever issued.
proof fn lemma_loop_exit_first(events: Seq<RunEvent>, i: int)
    requires
        0 <= i < events.len(),
        events[i] == RunEvent::ChildExited,
        forall|j: int| 0 <= j < i ==> events[j] != RunEvent::Control(ServiceControl::Stop),
    ensures
        loop_terminates(RuntimeState::Running, events) == 0,
        loop_done(RuntimeState::Running, events),
        loop_reports(RuntimeState::Running, events) == seq![stopped_report()],
    decreases i,
{
    let ev = events[0];
    if ev == RunEvent::ChildExited {
        assert(loop_reports(RuntimeState::Running, events) =~= seq![stopped_report()]);
    } else {
        assert(events.skip(1)[i - 1] == events[i]);
        assert forall|j: int|
            0 <= j < i - 1 implies events.skip(1)[j] != RunEvent::Control(
            ServiceControl::Stop,
        ) by {
            assert(events.skip(1)[j] == events[j + 1]);
        }
        lemma_loop_exit_first(events.skip(1), i - 1);
        assert(loop_reports(RuntimeState::Running, events) =~= seq![stopped_report()]);
    }
}

/// If the child exits before any stop request, the run reports Stopped,
/// completes successfully, and never calls terminate.
pub proof fn lemma_exit_before_stop(events: Seq<RunEvent>, i: int)
    requires
        0 <= i < events.len(),
        events[i] == RunEvent::ChildExited,
        forall|j: int| 0 <= j < i ==> events[j] != RunEvent::Control(ServiceControl::Stop),
    ensures
        run_terminates(StartOutcome::Started, events) == 0,
        run_disposition(StartOutcome::Started, events) == RunDisposition::Completed,
        run_reports(StartOutcome::Started, events) == seq![
            start_pending_report(),
            running_report(),
            stopped_report(),
        ],
{
    lemma_loop_exit_first(events, i);
    assert(run_reports(StartOutcome::Started, events) =~= seq![
        start_pending_report(),
        running_report(),
        stopped_report(),
    ]);
}

/// Once the first stop request is seen, exactly one terminate call follows,
/// whatever comes after it.
proof fn lemma_loop_stop_first(events: Seq<RunEvent>, i: int)
    requires
        0 <= i < events.len(),
        events[i] == RunEvent::Control(ServiceControl::Stop),
        forall|j: int| 0 <= j < i ==> events[j] != RunEvent::ChildExited,
    ensures
        loop_terminates(RuntimeState::Running, events) == 1,
    decreases i,
{
    let ev = events[0];
    if ev == RunEvent::Control(ServiceControl::Stop) {
        lemma_stop_pending_never_terminates(events.skip(1));
    } else {
        assert(events.skip(1)[i - 1] == events[i]);
        assert forall|j: int| 0 <= j < i - 1 implies events.skip(1)[j] != RunEvent::ChildExited by {
            assert(events.skip(1)[j] == events[j + 1]);
        }
        lemma_loop_stop_first(events.skip(1), i - 1);
    }
}

/// If a stop request arrives before any exit notification, exactly one
/// terminate call is issued — a repeated stop request while StopPending
/// adds none — and Stopped is reported, and the run completes, exactly when
/// the exit notification fires.
pub proof fn lemma_stop_before_exit(events: Seq<RunEvent>, i: int)
    requires
        0 <= i < events.len(),
        events[i] == RunEvent::Control(ServiceControl::Stop),
        forall|j: int| 0 <= j < i ==> events[j] != RunEvent::ChildExited,
    ensures
        run_terminates(StartOutcome::Started, events) == 1,
        run_reports(StartOutcome::Started, events).contains(stopped_report()) <==> (exists|k: int|
            0 <= k < events.len() && events[k] == RunEvent::ChildExited),
        run_disposition(StartOutcome::Started, events) == RunDisposition::Completed <==> (exists|
            k: int,
        |
            0 <= k < events.len() && events[k] == RunEvent::ChildExited),
{
    lemma_loop_stop_first(events, i);
    lemma_loop_done_iff_exit(RuntimeState::Running, events);
    lemma_stopped_iff_done(RuntimeState::Running, events);
    let prefix = seq![start_pending_report(), running_report()];
    assert(forall|j: int| 0 <= j < prefix.len() ==> prefix[j] != stopped_report());
    lemma_concat_contains_stopped(prefix, loop_reports(RuntimeState::Running, events));
}

/// One supervised lifecycle per invocation: owns the config for one run and
/// drives the state machine.
pub struct Service {
    config: Config,
}

/// The concrete way a stream config is realized at spawn time: inherit
/// nothing, or open a file with exactly these options.
#[derive(Debug, Clone, PartialEq)]
pub enum StreamPlan {
    UseNull,
    OpenFile { path: String, write: bool, create: bool, append: bool, truncate: bool },
}

/// What `StreamPlan` a stream config must resolve to: Null is discarded; a
/// file is opened writable, created if absent, and an existing file is
/// appended to or truncated exactly as configured.
pub open spec fn stream_plan_spec(stream: OutputStream, p: StreamPlan) -> bool {
    match stream {
        OutputStream::Null => p == StreamPlan::UseNull,
        OutputStream::File { path, exist_behavior } => match p {
            StreamPlan::OpenFile { path: p_path, write, create, append, truncate } => {
                &&& p_path@ == path@
                &&& write
                &&& create
                &&& append == (exist_behavior == ExistBehavior::Append)
                &&& truncate == (exist_behavior == ExistBehavior::Truncate)
            },
            _ => false,
        },
    }
}

impl Service {
    /// Take ownership of a validated config for one run.
    pub fn new(config: Config) -> (s: Self)
        ensures
            s.config_spec() == config,
    {
        Service { config: config }
    }

    /// The config this run owns.
    pub closed spec fn config_spec(&self) -> Config {
        self.config
    }

    /// Read access to the owned config, for the binding that spawns the
    /// child from it.
    pub fn config(&self) -> (c: &Config)
        ensures
            *c == self.config_spec(),
    {
        &self.config
    }

    /// Resolve one stream config into the concrete open plan the platform
    /// binding executes at spawn time.
    pub fn output_stream(config: &OutputStream) -> (p: StreamPlan)
        ensures
            stream_plan_spec(*config, p),
    {
        match config {
            OutputStream::Null => StreamPlan::UseNull,
            OutputStream::File { path, exist_behavior } => {
                let append = match exist_behavior {
                    ExistBehavior::Append => true,
                    ExistBehavior::Truncate => false,
                };
                StreamPlan::OpenFile {
                    path: path.clone(),
                    write: true,
                    create: true,
                    append: append,
                    truncate: !append,
                }
            },
        }
    }

    /// The whole lifecycle as a decision on what was observed: the start
    /// phase's outcome and the events the wait delivered, in order.  The
    /// returned log is exactly the trace the specification demands; the
    /// platform binding performs the same steps one event at a time against
    /// its own `Runtime`.
    pub fn run(&self, start: StartOutcome, events: &Vec<RunEvent>) -> (log: RunLog)
        ensures
            log.reports@ == run_reports(start, events@),
            log.terminate_calls == run_terminates(start, events@),
            log.disposition == run_disposition(start, events@),
    {
        let mut reports: Vec<StatusReport> = Vec::new();
        match start {
            StartOutcome::StartReportFailed => {
                return RunLog {
                    reports,
                    terminate_calls: 0,
                    disposition: RunDisposition::Failed(RuntimeError::Control),
                };
            },
            StartOutcome::GroupFailed(code) => {
                reports.push(StatusReport { state: RuntimeState::StartPending, accepts_stop: false });
                return RunLog {
                    reports,
                    terminate_calls: 0,
                    disposition: RunDisposition::Failed(RuntimeError::Resource(code)),
                };
            },
            StartOutcome::SpawnFailed(code) => {
                reports.push(StatusReport { state: RuntimeState::StartPending, accepts_stop: false });
                return RunLog {
                    reports,
                    terminate_calls: 0,
                    disposition: RunDisposition::Failed(RuntimeError::Spawn(code)),
                };
            },
            StartOutcome::RunningReportFailed => {
                reports.push(StatusReport { state: RuntimeState::StartPending, accepts_stop: false });
                return RunLog {
                    reports,
                    terminate_calls: 0,
                    disposition: RunDisposition::Failed(RuntimeError::Control),
                };
            },
            StartOutcome::Started => {},
        }
        reports.push(StatusReport { state: RuntimeState::StartPending, accepts_stop: false });
        reports.push(StatusReport { state: RuntimeState::Running, accepts_stop: true });
        let mut rt = Runtime::new();
        rt.started();
        let mut terminate_calls: usize = 0;
        let mut done = false;
        let mut i: usize = 0;
        proof {
            assert(events@.skip(0) =~= events@);
            assert(reports@ =~= seq![start_pending_report(), running_report()]);
        }
        while i < events.len() && !done
            invariant
                i <= events.len(),
                !done ==> rt.state == RuntimeState::Running || rt.state
                    == RuntimeState::StopPending,
                terminate_calls <= 1,
                run_reports(StartOutcome::Started, events@) == reports@ + (if done {
                    Seq::<StatusReport>::empty()
                } else {
                    loop_reports(rt.state, events@.skip(i as int))
                }),
                run_terminates(StartOutcome::Started, events@) == terminate_calls + (if done {
                    0nat
                } else {
                    loop_terminates(rt.state, events@.skip(i as int))
                }),
                loop_done(RuntimeState::Running, events@) == (done || (i < events.len()
                    && loop_done(rt.state, events@.skip(i as int)))),
            decreases events.len() - i,
        {
            let ghost pre_state = rt.state;
            let ghost rest = events@.skip(i as int);
            let out = rt.on_event(events[i]);
            proof {
                assert(rest[0] == events@[i as int]);
                assert(rest.skip(1) =~= events@.skip(i as int + 1));
            }
            match out.report {
                Some(r) => reports.push(r),
                None => {},
            }
            if out.terminate {
                proof {
                    lemma_at_most_one_terminate(RuntimeState::Running, events@);
                    lemma_stop_pending_never_terminates(rest.skip(1));
                }
                terminate_calls = terminate_calls + 1;
            }
            if out.exit_loop {
                done = true;
            }
            i = i + 1;
            proof {
                if !done && i >= events.len() {
                    assert(events@.skip(i as int) =~= Seq::<RunEvent>::empty());
                }
                assert(run_reports(StartOutcome::Started, events@) == reports@ + (if done {
                    Seq::<StatusReport>::empty()
                } else {
                    loop_reports(rt.state, events@.skip(i as int))
                }));
                if out.exit_loop {
                    assert(loop_done(pre_state, rest));
                } else {
                    assert(loop_done(pre_state, rest) == loop_done(
                        rt.state,
                        events@.skip(i as int),
                    ));
                }
            }
        }
        proof {
            if !done {
                assert(events@.skip(i as int) =~= Seq::<RunEvent>::empty());
            }
            assert(run_reports(StartOutcome::Started, events@) =~= reports@);
        }
        RunLog {
            reports,
            terminate_calls,
            disposition: if done {
                RunDisposition::Completed
            } else {
                RunDisposition::Waiting
            },
        }
    }

    /// Drive one whole run and push every report through the controller
    /// interface as it is produced.  On success the controller has received
    /// exactly the demanded reports, in order; if a delivery fails, the run
    /// unwinds with a control error and the controller has received a
    /// proper prefix of them, still in order.
    pub fn run_reported<H: crate::gensvc::Handler>(
        &self,
        handler: &mut H,
        start: StartOutcome,
        events: &Vec<RunEvent>,
    ) -> (r: Result<RunLog, RuntimeError>)
        ensures
            ({
                match r {
                    Ok(log) => {
                        &&& final(handler).reported() == old(handler).reported() + run_reports(
                            start,
                            events@,
                        )
                        &&& log.reports@ == run_reports(start, events@)
                        &&& log.terminate_calls == run_terminates(start, events@)
                        &&& log.disposition == run_disposition(start, events@)
                    },
                    Err(e) => {
                        &&& e == RuntimeError::Control
                        &&& exists|n: int|
                            0 <= n < run_reports(start, events@).len() && final(handler).reported()
                                == old(handler).reported() + run_reports(start, events@).take(n)
                    },
                }
            }),
    {
        let log = self.run(start, events);
        let mut j: usize = 0;
        proof {
            assert(log.reports@.take(0) =~= Seq::<StatusReport>::empty());
            assert(old(handler).reported() + log.reports@.take(0) =~= old(handler).reported());
        }
        while j < log.reports.len()
            invariant
                j <= log.reports.len(),
                log.reports@ == run_reports(start, events@),
                handler.reported() == old(handler).reported() + log.reports@.take(j as int),
            decreases log.reports.len() - j,
        {
            let rep = log.reports[j];
            let res = handler.update(rep.state, rep.accepts_stop);
            match res {
                Ok(_) => {},
                Err(_) => {
                    proof {
                        assert(0 <= j as int && (j as int) < run_reports(start, events@).len());
                        assert(handler.reported() == old(handler).reported() + run_reports(
                            start,
                            events@,
                        ).take(j as int));
                    }
                    return Err(RuntimeError::Control);
                },
            }
            proof {
                assert((StatusReport { state: rep.state, accepts_stop: rep.accepts_stop }) == rep);
                assert(log.reports@.take(j as int + 1) =~= log.reports@.take(j as int).push(
                    log.reports@[j as int],
                ));
                assert(old(handler).reported() + log.reports@.take(j as int + 1) =~= (old(
                    handler,
                ).reported() + log.reports@.take(j as int)).push(log.reports@[j as int]));
            }
            j = j + 1;
        }
        proof {
            assert(log.reports@.take(log.reports@.len() as int) =~= log.reports@);
        }
        Ok(log)
    }
}

} // verus!
