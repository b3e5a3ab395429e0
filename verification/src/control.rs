//! Control-code handling: the vocabulary of controller notifications and
//! the decision the controller-owned callback makes for each one.  The
//! callback must acknowledge immediately and forward exactly the Stop
//! notifications into the runtime's event source; the decision is computed
//! here, the actual channel send is performed by the platform binding.

use vstd::prelude::*;

verus! {

/// A discrete control notification delivered by the controller.  Codes the
/// runtime does not react to are collapsed into `Other`.
#[derive(Debug, Clone, Copy, PartialEq, Eq, Structural)]
pub enum ServiceControl {
    Stop,
    Interrogate,
    Other,
}

/// How the callback answers the controller for one notification.
#[derive(Debug, Clone, Copy, PartialEq, Eq, Structural)]
pub enum ControlAck {
    NoError,
    NotImplemented,
}

/// The callback's decision for one notification: the acknowledgment to
/// return, and whether a stop event is forwarded to the runtime.
#[derive(Debug, Clone, Copy, PartialEq, Eq, Structural)]
pub struct ControlDecision {
    pub ack: ControlAck,
    pub forward_stop: bool,
}

/// Stop and Interrogate are acknowledged as handled; Stop alone is
/// forwarded; everything else is acknowledged as not implemented and has no
/// side effect.
pub open spec fn handle_control_spec(sc: ServiceControl) -> ControlDecision {
    match sc {
        ServiceControl::Stop => ControlDecision { ack: ControlAck::NoError, forward_stop: true },
        ServiceControl::Interrogate => ControlDecision {
            ack: ControlAck::NoError,
            forward_stop: false,
        },
        ServiceControl::Other => ControlDecision {
            ack: ControlAck::NotImplemented,
            forward_stop: false,
        },
    }
}

/// Decide how the controller callback answers one notification.  A stop
/// event is forwarded exactly when the notification is Stop, so the runtime
/// neither loses nor duplicates stop requests at this boundary.
pub fn handle_control(sc: ServiceControl) -> (d: ControlDecision)
    ensures
        d == handle_control_spec(sc),
        d.forward_stop <==> sc == ServiceControl::Stop,
{
    match sc {
        ServiceControl::Stop => ControlDecision { ack: ControlAck::NoError, forward_stop: true },
        ServiceControl::Interrogate => ControlDecision {
            ack: ControlAck::NoError,
            forward_stop: false,
        },
        ServiceControl::Other => ControlDecision {
            ack: ControlAck::NotImplemented,
            forward_stop: false,
        },
    }
}

} // verus!
