//! Verified core of a service wrapper: it adapts a console program into a
//! long-running host process managed by an operating-system service
//! controller.  The modules here hold the configuration model, the kernel
//! job-object limit policy, the control-code decisions, and the lifecycle
//! state machine that correlates controller stop requests with child-process
//! exit notifications.  The platform binding that performs the actual OS
//! calls lives outside this crate and only executes what these functions
//! decide.

pub mod config;
pub mod control;
pub mod gensvc;
pub mod jobobjects;
pub mod svc;
pub mod winsvc;
