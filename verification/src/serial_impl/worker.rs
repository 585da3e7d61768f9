use vstd::prelude::*;

use crate::communicationtrait::{
    lifecycle_edge, CommunicationEvent, CommunicationEventV, EPortState,
};

verus! {

/// What one iteration of the worker loop must do: emit at most one event to
/// the caller, write at most one payload to the transport, and possibly
/// leave the loop.
pub struct WorkerStep {
    pub exit: bool,
    pub emit: Option<CommunicationEvent>,
    pub write: Option<Vec<u8>>,
}

/// The worker's first decision, right after trying to open the transport:
/// a successful open confirms the session (`Open`), a failed open ends it
/// (`Closed`) and the worker never enters its loop.
pub fn worker_on_open(opened: bool) -> (s: EPortState)
    ensures
        lifecycle_edge(EPortState::Opening, s),
        opened ==> s == EPortState::Open,
        !opened ==> s == EPortState::Closed,
{
    if opened {
        EPortState::Open
    } else {
        EPortState::Closed
    }
}

/// The worker's per-iteration decision. `observed` is the shared connection
/// state as last read; anything but `Open` is the cooperative cancellation
/// signal and makes the worker leave at once, touching nothing. While
/// `Open`, every inbound chunk is forwarded verbatim as one data event, and
/// every pending outbound payload is written verbatim to the transport.
pub fn worker_step(
    observed: EPortState,
    inbound: Option<Vec<u8>>,
    outbound: Option<Vec<u8>>,
) -> (r: WorkerStep)
    ensures
        observed != EPortState::Open ==> r.exit && r.emit is None && r.write is None,
        observed == EPortState::Open ==> {
            &&& !r.exit
            &&& (inbound matches Some(b) ==> r.emit matches Some(e) && e@
                == CommunicationEventV::DataReceived(b@))
            &&& (inbound is None ==> r.emit is None)
            &&& (outbound matches Some(b) ==> r.write matches Some(w) && w@ == b@)
            &&& (outbound is None ==> r.write is None)
        },
{
    if observed != EPortState::Open {
        WorkerStep { exit: true, emit: None, write: None }
    } else {
        let emit = match inbound {
            Some(b) => Some(CommunicationEvent::DataReceived(b)),
            None => None,
        };
        WorkerStep { exit: false, emit, write: outbound }
    }
}

/// The worker's decision after trying to emit an event: a failed delivery
/// means the caller dropped its receiver, and the worker exits its loop
/// within that same iteration.
pub fn worker_emit_outcome(delivered: bool) -> (exit: bool)
    ensures
        exit == !delivered,
{
    !delivered
}

} // verus!
