//! Configuration model for one supervised service: the registration
//! identity, the process specification (binary, arguments, working
//! directory, environment overrides, stdout/stderr redirection), the
//! optional job-object policy, and the declared-but-unused restart policy.
//! A config is loaded once before the runtime starts and owned by it for
//! one run; nothing here is mutated afterwards.

use vstd::prelude::*;
use crate::jobobjects::PriorityClass;

verus! {

/// Job-object policy requested by the config: at most a priority class for
/// the whole process tree.
#[derive(Debug, Clone)]
pub struct JobObject {
    pub priority_class: Option<PriorityClass>,
}

/// Identity under which the service is registered with the controller.
#[derive(Debug, Clone, Default)]
pub struct Registration {
    pub name: String,
    pub display_name: String,
    pub description: Option<String>,
}

/// What to do with a redirection file that already exists.
#[derive(Debug, Clone, Copy, PartialEq, Eq, Structural)]
pub enum ExistBehavior {
    Append,
    Truncate,
}

impl Default for ExistBehavior {
    /// An existing file is appended to unless the config says otherwise.
    fn default() -> (r: Self)
        ensures
            r == ExistBehavior::Append,
    {
        ExistBehavior::Append
    }
}

/// Redirection policy for one standard stream of the child process.
#[derive(Debug, Clone)]
pub enum OutputStream {
    Null,
    File { path: String, exist_behavior: ExistBehavior },
}

impl Default for OutputStream {
    /// A stream is discarded unless the config redirects it.
    fn default() -> (r: Self)
        ensures
            r == OutputStream::Null,
    {
        OutputStream::Null
    }
}

/// The process to supervise and how to launch it.
#[derive(Debug, Clone, Default)]
pub struct Process {
    pub binary: String,
    pub args: Vec<String>,
    pub working_directory: Option<String>,
    pub environment: Vec<(String, String)>,
    pub stdout: OutputStream,
    pub stderr: OutputStream,
}

/// Host-process options consumed before the runtime starts.
#[derive(Debug, Clone, Default)]
pub struct WinSvc {
    pub log_path: Option<String>,
}

/// What a restart rule does when the child terminates.
#[derive(Debug, Clone, Copy, PartialEq, Eq, Structural)]
pub enum ActionType {
    NoAction,
    Restart,
}

impl Default for ActionType {
    /// A restart rule does nothing unless the config says otherwise.
    fn default() -> (r: Self)
        ensures
            r == ActionType::NoAction,
    {
        ActionType::NoAction
    }
}

/// One declared restart rule: an action and a delay before it runs.
#[derive(Debug, Clone, Default)]
pub struct RestartAction {
    pub action: ActionType,
    pub delay: u32,
}

/// Declared restart policy; carried by the config but not acted on.
#[derive(Debug, Clone, Default)]
pub struct RestartBehavior {
    pub reset_period: u32,
    pub actions: Vec<RestartAction>,
}

/// Everything one run of the service needs, loaded once up front.
#[derive(Debug, Clone, Default)]
pub struct Config {
    pub winsvc: Option<WinSvc>,
    pub registration: Registration,
    pub process: Process,
    pub job_object: Option<JobObject>,
    pub restart: Option<RestartBehavior>,
}

} // verus!
