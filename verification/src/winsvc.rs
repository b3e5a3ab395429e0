//! Registration planning: what one-time installation of the service with
//! the OS service manager must say.  The plan is computed and proved here
//! from the registration identity; the platform binding copies it into the
//! manager's structures and performs the call.

use vstd::prelude::*;
use crate::config::Registration;

verus! {

/// Everything the one-shot install call tells the service manager: the
/// identity, the host executable, and the arguments the controller passes
/// back when it starts the service.  The service always runs in its own
/// process and starts automatically.
#[derive(Debug)]
pub struct InstallPlan {
    pub name: String,
    pub display_name: String,
    pub description: Option<String>,
    pub executable_path: String,
    pub launch_arguments: Vec<String>,
    pub auto_start: bool,
}

/// Build the install plan for a registration: the identity is carried over
/// unchanged, and the launch arguments make the controller invoke this
/// executable in its run mode on the same config file.
pub fn install_plan(registration: &Registration, executable_path: String, config_path: String) -> (p:
    InstallPlan)
    ensures
        p.name == registration.name,
        p.display_name == registration.display_name,
        p.description == registration.description,
        p.executable_path == executable_path,
        p.launch_arguments@.len() == 2,
        p.launch_arguments@[0]@ == "run"@,
        p.launch_arguments@[1] == config_path,
        p.auto_start,
{
    let mut launch_arguments: Vec<String> = Vec::new();
    launch_arguments.push(run_mode_argument());
    launch_arguments.push(config_path);
    InstallPlan {
        name: registration.name.clone(),
        display_name: registration.display_name.clone(),
        description: clone_description(&registration.description),
        executable_path,
        launch_arguments,
        auto_start: true,
    }
}

/// The subcommand under which the controller starts the registered
/// executable.
fn run_mode_argument() -> (s: String)
    ensures
        s@ == "run"@,
{
    let r: &str = "run";
    r.to_owned()
}

/// Copy an optional description, preserving the value exactly.
fn clone_description(description: &Option<String>) -> (r: Option<String>)
    ensures
        r == description,
{
    match description {
        Some(d) => Some(d.clone()),
        None => None,
    }
}

} // verus!
