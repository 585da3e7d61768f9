use vstd::prelude::*;

use crate::serial_impl::portsettings::{PortSettings, PortSettingsV};

verus! {

/// Lifecycle of a communication channel: no transport (`Closed`), a worker
/// spawned but the transport not yet confirmed open (`Opening`), or a
/// confirmed transport with an active read/write loop (`Open`).
#[derive(PartialEq, Eq, Structural, Clone, Copy, Debug)]
pub enum EPortState {
    Open,
    Closed,
    Opening,
}

/// The edges of the connection-lifecycle state machine. Every state change
/// performed by this crate moves along one of these edges (staying put counts
/// as not moving at all).
pub open spec fn lifecycle_edge(from: EPortState, to: EPortState) -> bool {
    ||| from == to
    ||| (from == EPortState::Closed && to == EPortState::Opening)
    ||| (from == EPortState::Opening && to == EPortState::Open)
    ||| (from == EPortState::Opening && to == EPortState::Closed)
    ||| (from == EPortState::Open && to == EPortState::Closed)
}

/// A manager counts as running while a worker session exists, that is while
/// the state is `Opening` or `Open`.
pub open spec fn running_state(s: EPortState) -> bool {
    s != EPortState::Closed
}

/// Events that can be emitted by a communication channel.
pub enum CommunicationEvent {
    DataReceived(Vec<u8>),
    ConnectionClosed,
    Error(String),
}

/// Abstract value of a `CommunicationEvent`.
pub enum CommunicationEventV {
    DataReceived(Seq<u8>),
    ConnectionClosed,
    Error(Seq<char>),
}

impl View for CommunicationEvent {
    type V = CommunicationEventV;

    open spec fn view(&self) -> CommunicationEventV {
        match self {
            CommunicationEvent::DataReceived(d) => CommunicationEventV::DataReceived(d@),
            CommunicationEvent::ConnectionClosed => CommunicationEventV::ConnectionClosed,
            CommunicationEvent::Error(e) => CommunicationEventV::Error(e@),
        }
    }
}

/// Errors a communication manager reports synchronously to its caller.
#[derive(PartialEq, Eq, Structural, Clone, Copy, Debug)]
pub enum CommError {
    /// No command-channel sender exists: the manager was never started, or was
    /// already stopped.
    NotConnected,
    /// `start` was called while a worker session already exists.
    AlreadyRunning,
    /// The configuration payload is not of the kind this manager accepts.
    InvalidSettings,
}

/// Configuration payloads, one variant per supported transport kind.
pub enum TransportSettings {
    Serial(PortSettings),
}

/// Abstract value of a `TransportSettings`.
pub enum TransportSettingsV {
    Serial(PortSettingsV),
}

impl View for TransportSettings {
    type V = TransportSettingsV;

    open spec fn view(&self) -> TransportSettingsV {
        match self {
            TransportSettings::Serial(p) => TransportSettingsV::Serial(p@),
        }
    }
}

/// What a successful `start` asks the surrounding runtime to do: spawn one
/// worker bound to the snapshotted settings.
pub struct StartCommand {
    pub settings: TransportSettings,
}

/// What `stop` asks the surrounding runtime to do: join the worker thread,
/// if one was retained.
pub struct StopCommand {
    pub join_worker: bool,
}

/// What a successful `send_data` asks the surrounding runtime to do: push
/// the payload onto the command channel.
pub struct SendCommand {
    pub data: Vec<u8>,
}

/// The outcome of handing a send command's payload to the command channel:
/// an undelivered push means the channel has no receiver any more (the
/// worker is gone), which is the not-connected condition; a delivered push
/// is success, whatever later becomes of the physical write.
pub fn send_outcome(delivered: bool) -> (r: Result<(), CommError>)
    ensures
        delivered ==> r is Ok,
        !delivered ==> {
            &&& r matches Err(e) && e == CommError::NotConnected
        },
{
    if delivered {
        Ok(())
    } else {
        Err(CommError::NotConnected)
    }
}

/// The abstract state of a communication manager, as the trait's contracts
/// constrain it.
pub struct ManagerView {
    pub state: EPortState,
    pub connected: bool,
    pub worker: bool,
    pub settings: TransportSettingsV,
}

/// The state transform every `stop` performs: the session ends, the command
/// sender and the worker handle are dropped, the settings stay.
pub open spec fn stop_transition(v: ManagerView) -> ManagerView {
    ManagerView { state: EPortState::Closed, connected: false, worker: false, ..v }
}

/// `stop` is idempotent: stopping an already stopped manager changes nothing,
/// and since the first `stop` consumed the worker handle, the second finds no
/// worker to join, so no double join can occur.
pub proof fn lemma_stop_idempotent(v: ManagerView)
    ensures
        stop_transition(stop_transition(v)) == stop_transition(v),
        !stop_transition(v).worker,
{
}

/// After `stop` returns, the manager is not running and no worker handle
/// remains retained.
pub proof fn lemma_stopped_not_running(v: ManagerView)
    ensures
        !running_state(stop_transition(v).state),
        !stop_transition(v).worker,
        !stop_transition(v).connected,
{
}

/// Contract for managing a generic byte-stream communication channel.
///
/// A manager is the decision core of one communication session: its methods
/// perform the caller-side state transitions and return commands describing
/// the outside work (spawning, joining, pushing onto a channel) that the
/// surrounding runtime must carry out.
pub trait CommunicationManager: Sized {
    /// Internal well-formedness, established by constructors and preserved by
    /// every method.
    spec fn inv(&self) -> bool;

    /// The connection state this manager currently holds.
    spec fn state(&self) -> EPortState;

    /// Whether a command-channel sender exists.
    spec fn connected(&self) -> bool;

    /// Whether a worker handle is retained (the worker may have finished
    /// already; only `stop` consumes the handle).
    spec fn worker_retained(&self) -> bool;

    /// The currently stored configuration.
    spec fn settings_view(&self) -> TransportSettingsV;

    /// Which configuration payloads this manager accepts.
    spec fn accepts(&self, s: TransportSettingsV) -> bool;

    /// Begin a worker session: mark the state `Opening`, snapshot the current
    /// settings and command the runtime to spawn exactly one worker for them.
    /// Calling `start` while running is rejected deterministically.
    fn start(&mut self) -> (r: Result<StartCommand, CommError>)
        requires
            old(self).inv(),
        ensures
            final(self).inv(),
            lifecycle_edge(old(self).state(), final(self).state()),
            final(self).settings_view() == old(self).settings_view(),
            running_state(old(self).state()) ==> {
                &&& r matches Err(e) && e == CommError::AlreadyRunning
                &&& final(self).state() == old(self).state()
                &&& final(self).connected() == old(self).connected()
                &&& final(self).worker_retained() == old(self).worker_retained()
            },
            !running_state(old(self).state()) ==> {
                &&& r matches Ok(cmd) && cmd.settings@ == old(self).settings_view()
                &&& final(self).state() == EPortState::Opening
                &&& final(self).connected()
                &&& final(self).worker_retained()
            },
    ;

    /// End the session: the state becomes `Closed` (the sole cooperative
    /// cancellation signal for the worker), and the returned command says
    /// whether a retained worker handle must now be joined. Safe to call at
    /// any time, any number of times: the abstract state moves by
    /// `stop_transition`, whatever it was. Payloads still queued outbound
    /// when the session ends may never reach the transport: no drain is
    /// promised.
    fn stop(&mut self) -> (r: StopCommand)
        requires
            old(self).inv(),
        ensures
            final(self).inv(),
            lifecycle_edge(old(self).state(), final(self).state()),
            (ManagerView {
                state: final(self).state(),
                connected: final(self).connected(),
                worker: final(self).worker_retained(),
                settings: final(self).settings_view(),
            }) == stop_transition(
                (ManagerView {
                    state: old(self).state(),
                    connected: old(self).connected(),
                    worker: old(self).worker_retained(),
                    settings: old(self).settings_view(),
                }),
            ),
            r.join_worker == old(self).worker_retained(),
    ;

    /// Returns true iff the connection state is `Open` or `Opening`.
    fn is_running(&self) -> (r: bool)
        requires
            self.inv(),
        ensures
            r == running_state(self.state()),
    ;

    /// Hand a payload to the command channel. Fails with a not-connected
    /// condition, changing nothing and producing no command, when no
    /// command-channel sender exists.
    fn send_data(&mut self, data: Vec<u8>) -> (r: Result<SendCommand, CommError>)
        requires
            old(self).inv(),
        ensures
            final(self).inv(),
            final(self).state() == old(self).state(),
            final(self).connected() == old(self).connected(),
            final(self).worker_retained() == old(self).worker_retained(),
            final(self).settings_view() == old(self).settings_view(),
            old(self).connected() ==> {
                &&& r matches Ok(cmd) && cmd.data@ == data@
            },
            !old(self).connected() ==> {
                &&& r matches Err(e) && e == CommError::NotConnected
            },
    ;

    /// Enumerate the currently present endpoints of this transport kind, as a
    /// deterministically ordered list of identifiers (lexicographic).
    fn get_available_connections(&self) -> (r: Vec<String>)
        requires
            self.inv(),
        ensures
            crate::portlist::lex_sorted(crate::portlist::seq_views(r@)),
    ;

    /// Replace the stored settings with the given payload, if it is of the
    /// kind this manager accepts; the change only takes effect on the next
    /// `start` (a running worker keeps its own snapshot).
    fn update_settings(&mut self, settings: TransportSettings) -> (r: Result<(), CommError>)
        requires
            old(self).inv(),
        ensures
            final(self).inv(),
            final(self).state() == old(self).state(),
            final(self).connected() == old(self).connected(),
            final(self).worker_retained() == old(self).worker_retained(),
            old(self).accepts(settings@) ==> r is Ok && final(self).settings_view() == settings@,
            !old(self).accepts(settings@) ==> {
                &&& r matches Err(e) && e == CommError::InvalidSettings
                &&& final(self).settings_view() == old(self).settings_view()
            },
    ;
}

} // verus!
