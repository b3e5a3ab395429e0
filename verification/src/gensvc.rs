//! The controller-neutral status interface: one implementation per target
//! controller pushes each lifecycle transition synchronously, and the
//! recording implementation here lets the state machine be exercised with
//! no controller present.  The contract makes every implementation account
//! for exactly the reports it delivered, in order.

use vstd::prelude::*;
use crate::svc::{RuntimeState, StatusReport, RuntimeError};

verus! {

/// Pushes lifecycle transitions to the controller.  `reported` is the
/// sequence of reports delivered so far; a successful `update` delivers
/// exactly one more, a failed one delivers nothing.
pub trait Handler {
    spec fn reported(&self) -> Seq<StatusReport>;

    fn update(&mut self, status: RuntimeState, accepts_stop: bool) -> (r: Result<(), RuntimeError>)
        ensures
            r.is_ok() ==> final(self).reported() == old(self).reported().push(
                (StatusReport { state: status, accepts_stop }),
            ),
            r.is_err() ==> final(self).reported() == old(self).reported(),
    ;
}

/// A controller stand-in that accepts every report and keeps the delivered
/// sequence in plain view.
pub struct RecordingHandler {
    pub log: Vec<StatusReport>,
}

impl RecordingHandler {
    /// A fresh recorder with nothing delivered yet.
    pub fn new() -> (h: RecordingHandler)
        ensures
            h.reported() == Seq::<StatusReport>::empty(),
    {
        RecordingHandler { log: Vec::new() }
    }
}

impl Handler for RecordingHandler {
    open spec fn reported(&self) -> Seq<StatusReport> {
        self.log@
    }

    fn update(&mut self, status: RuntimeState, accepts_stop: bool) -> (r: Result<(), RuntimeError>)
        ensures
            r.is_ok(),
    {
        self.log.push(StatusReport { state: status, accepts_stop });
        Ok(())
    }
}

} // verus!
