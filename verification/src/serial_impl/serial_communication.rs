use vstd::prelude::*;

use crate::communicationtrait::{
    lifecycle_edge, running_state, CommError, CommunicationManager, EPortState, SendCommand,
    StartCommand, StopCommand, TransportSettings, TransportSettingsV,
};
use crate::portlist::{lex_sorted, seq_views, sorted_port_list};
use crate::serial_impl::portsettings::{FlowControl, Parity, PortSettings, StopBits};

verus! {

/// The serial transport's manager core. It performs the caller-side
/// lifecycle transitions and decides what outside work the surrounding
/// runtime must carry out; the runtime owns the actual thread, channels and
/// port handle.
pub struct SerialCommunication {
    port_settings: PortSettings,
    port_state: EPortState,
    has_worker: bool,
    has_sender: bool,
}

/// Relies on serialport::available_ports: the names of the serial ports the
/// system reports at this moment. The set depends on the machine and the
/// moment, so nothing is promised of the names; an enumeration failure
/// yields the empty list.
#[verifier::external_body]
fn available_port_names() -> (r: Vec<String>)
{
    match serialport::available_ports() {
        Ok(ports) => ports.into_iter().map(|p| p.port_name).collect(),
        Err(_) => Vec::new(),
    }
}

impl SerialCommunication {
    /// A manager with default settings, no session and no worker.
    pub fn new() -> (r: Self)
        ensures
            r.inv(),
            r.state() == EPortState::Closed,
            !r.connected(),
            !r.worker_retained(),
            r.settings_view() matches TransportSettingsV::Serial(p) && {
                &&& p.port_name.len() == 0
                &&& p.baudrate == 115200
                &&& p.flowcontrol == FlowControl::Off
                &&& p.parity == Parity::Off
                &&& p.stop_bits == StopBits::One
            },
    {
        SerialCommunication {
            port_settings: PortSettings::default(),
            port_state: EPortState::Closed,
            has_worker: false,
            has_sender: false,
        }
    }

    /// Interpret one poll of the worker-published connection state: adopt the
    /// transitions the worker itself may perform (confirming the open, or
    /// ending the session), and ignore anything else as stale.
    pub fn note_worker_state(&mut self, observed: EPortState)
        requires
            old(self).inv(),
        ensures
            final(self).inv(),
            lifecycle_edge(old(self).state(), final(self).state()),
            final(self).connected() == old(self).connected(),
            final(self).worker_retained() == old(self).worker_retained(),
            final(self).settings_view() == old(self).settings_view(),
            old(self).state() == EPortState::Opening && observed == EPortState::Open
                ==> final(self).state() == EPortState::Open,
            running_state(old(self).state()) && observed == EPortState::Closed
                ==> final(self).state() == EPortState::Closed,
            !(old(self).state() == EPortState::Opening && observed == EPortState::Open)
                && !(running_state(old(self).state()) && observed == EPortState::Closed)
                ==> final(self).state() == old(self).state(),
    {
        match (self.port_state, observed) {
            (EPortState::Opening, EPortState::Open) => {
                self.port_state = EPortState::Open;
            },
            (EPortState::Opening, EPortState::Closed) => {
                self.port_state = EPortState::Closed;
            },
            (EPortState::Open, EPortState::Closed) => {
                self.port_state = EPortState::Closed;
            },
            _ => {},
        }
    }
}

impl CommunicationManager for SerialCommunication {
    /// At most one worker session exists at a time, and a session always has
    /// both its worker handle and its command sender.
    closed spec fn inv(&self) -> bool {
        self.port_state != EPortState::Closed ==> self.has_worker && self.has_sender
    }

    closed spec fn state(&self) -> EPortState {
        self.port_state
    }

    closed spec fn connected(&self) -> bool {
        self.has_sender
    }

    closed spec fn worker_retained(&self) -> bool {
        self.has_worker
    }

    closed spec fn settings_view(&self) -> TransportSettingsV {
        TransportSettingsV::Serial(self.port_settings@)
    }

    /// A serial manager accepts exactly the serial settings payload.
    closed spec fn accepts(&self, s: TransportSettingsV) -> bool {
        s is Serial
    }

    fn start(&mut self) -> (r: Result<StartCommand, CommError>) {
        if self.port_state != EPortState::Closed {
            return Err(CommError::AlreadyRunning);
        }
        self.port_state = EPortState::Opening;
        self.has_worker = true;
        self.has_sender = true;
        let snapshot = self.port_settings.snapshot();
        Ok(StartCommand { settings: TransportSettings::Serial(snapshot) })
    }

    fn stop(&mut self) -> (r: StopCommand) {
        self.port_state = EPortState::Closed;
        let join = self.has_worker;
        self.has_worker = false;
        self.has_sender = false;
        StopCommand { join_worker: join }
    }

    fn is_running(&self) -> (r: bool) {
        self.port_state != EPortState::Closed
    }

    fn send_data(&mut self, data: Vec<u8>) -> (r: Result<SendCommand, CommError>) {
        if self.has_sender {
            Ok(SendCommand { data })
        } else {
            Err(CommError::NotConnected)
        }
    }

    fn get_available_connections(&self) -> (r: Vec<String>) {
        let names = available_port_names();
        sorted_port_list(names)
    }

    fn update_settings(&mut self, settings: TransportSettings) -> (r: Result<(), CommError>) {
        match settings {
            TransportSettings::Serial(p) => {
                self.port_settings = p;
                Ok(())
            },
        }
    }
}

} // verus!

