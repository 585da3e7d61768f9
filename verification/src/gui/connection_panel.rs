use vstd::prelude::*;

use crate::communicationtrait::{
    running_state, CommunicationManager, EPortState, StartCommand, StopCommand,
    TransportSettings, TransportSettingsV,
};
use crate::portlist::{lex_sorted, seq_views};
use crate::serial_impl::portsettings::{FlowControl, Parity, PortSettings, StopBits};

verus! {

/// What the connect/disconnect button asks the surrounding runtime to do.
pub enum ConnectionAction {
    NoAction,
    StopWorker(StopCommand),
    StartWorker(StartCommand),
}

/// The connection panel: the settings being edited, the known endpoint
/// list, and the connect/disconnect button's label.
pub struct ConnectionPanel {
    pub port_settings: PortSettings,
    pub port_list: Vec<String>,
    pub button_text: String,
}

impl ConnectionPanel {
    /// Default settings, no known endpoints, button offering to open.
    pub fn new() -> (r: Self)
        ensures
            r.port_settings@.port_name.len() == 0,
            r.port_settings@.baudrate == 115200,
            r.port_settings@.flowcontrol == FlowControl::Off,
            r.port_settings@.parity == Parity::Off,
            r.port_settings@.stop_bits == StopBits::One,
            r.port_list@.len() == 0,
            r.button_text@ == "Open port"@,
    {
        ConnectionPanel {
            port_settings: PortSettings::default(),
            port_list: Vec::new(),
            button_text: String::from_str("Open port"),
        }
    }

    /// Refresh the endpoint list from the manager and select the first
    /// entry of the ordered list, or a placeholder if none is present.
    pub fn update_ports<M: CommunicationManager>(&mut self, manager: &Option<M>)
        requires
            (*manager) matches Some(m) ==> m.inv(),
        ensures
            (*manager) is None ==> *final(self) == *old(self),
            (*manager) matches Some(m) ==> {
                &&& lex_sorted(seq_views(final(self).port_list@))
                &&& (final(self).port_list@.len() > 0 ==> final(self).port_settings@.port_name
                    == final(self).port_list@[0]@)
                &&& (final(self).port_list@.len() == 0 ==> final(self).port_settings@.port_name
                    == "No port"@)
                &&& final(self).port_settings@.baudrate == old(self).port_settings@.baudrate
                &&& final(self).port_settings@.flowcontrol == old(
                    self,
                ).port_settings@.flowcontrol
                &&& final(self).port_settings@.parity == old(self).port_settings@.parity
                &&& final(self).port_settings@.stop_bits == old(self).port_settings@.stop_bits
                &&& final(self).button_text@ == old(self).button_text@
            },
    {
        match manager {
            Some(m) => {
                self.port_list = m.get_available_connections();
                if self.port_list.len() > 0 {
                    self.port_settings.port_name = self.port_list[0].clone();
                } else {
                    self.port_settings.port_name = String::from_str("No port");
                }
            },
            None => {},
        }
    }

    /// The connect/disconnect decision: while running, end the session and
    /// offer to open again; otherwise hand the edited settings to the
    /// manager and begin a session, offering to close. The returned action
    /// carries the worker join or spawn the runtime must perform.
    pub fn handle_connection_button<M: CommunicationManager>(
        &mut self,
        manager: &mut Option<M>,
    ) -> (r: ConnectionAction)
        requires
            (*old(manager)) matches Some(m) ==> m.inv(),
        ensures
            (*old(manager)) is None ==> {
                &&& r is NoAction
                &&& *final(self) == *old(self)
                &&& (*final(manager)) is None
            },
            (*old(manager)) matches Some(m) ==> {
                &&& ((*final(manager)) matches Some(m2) && {
                    &&& m2.inv()
                    &&& (running_state(m.state()) ==> {
                        &&& r matches ConnectionAction::StopWorker(cmd) && cmd.join_worker
                            == m.worker_retained()
                        &&& m2.state() == EPortState::Closed
                        &&& !m2.connected()
                        &&& !m2.worker_retained()
                        &&& m2.settings_view() == m.settings_view()
                        &&& final(self).button_text@ == "Open port"@
                    })
                    &&& (!running_state(m.state()) && m.accepts(
                        TransportSettingsV::Serial(old(self).port_settings@),
                    ) ==> {
                        &&& r matches ConnectionAction::StartWorker(cmd) && cmd.settings@
                            == TransportSettingsV::Serial(old(self).port_settings@)
                        &&& m2.state() == EPortState::Opening
                        &&& m2.connected()
                        &&& m2.worker_retained()
                        &&& m2.settings_view() == TransportSettingsV::Serial(
                            old(self).port_settings@,
                        )
                        &&& final(self).button_text@ == "Close port"@
                    })
                    &&& (!running_state(m.state()) && !m.accepts(
                        TransportSettingsV::Serial(old(self).port_settings@),
                    ) ==> {
                        &&& r is NoAction
                        &&& m2.state() == m.state()
                        &&& m2.connected() == m.connected()
                        &&& m2.worker_retained() == m.worker_retained()
                        &&& m2.settings_view() == m.settings_view()
                        &&& final(self).button_text@ == old(self).button_text@
                    })
                })
                &&& final(self).port_settings@ == old(self).port_settings@
                &&& final(self).port_list@ == old(self).port_list@
            },
    {
        match manager {
            Some(m) => {
                if m.is_running() {
                    let cmd = m.stop();
                    self.button_text = String::from_str("Open port");
                    ConnectionAction::StopWorker(cmd)
                } else {
                    let settings = TransportSettings::Serial(self.port_settings.snapshot());
                    match m.update_settings(settings) {
                        Ok(_) => {
                            match m.start() {
                                Ok(cmd) => {
                                    self.button_text = String::from_str("Close port");
                                    ConnectionAction::StartWorker(cmd)
                                },
                                Err(_) => ConnectionAction::NoAction,
                            }
                        },
                        Err(_) => ConnectionAction::NoAction,
                    }
                }
            },
            None => ConnectionAction::NoAction,
        }
    }

    /// Let the button offer to open again once the manager is no longer
    /// running (the worker may have ended the session on its own).
    pub fn update_button_text<M: CommunicationManager>(&mut self, manager: &Option<M>)
        requires
            (*manager) matches Some(m) ==> m.inv(),
        ensures
            (*manager) is None ==> *final(self) == *old(self),
            (*manager) matches Some(m) ==> {
                &&& (!running_state(m.state()) ==> final(self).button_text@ == "Open port"@)
                &&& (running_state(m.state()) ==> *final(self) == *old(self))
                &&& final(self).port_settings@ == old(self).port_settings@
                &&& final(self).port_list@ == old(self).port_list@
            },
    {
        match manager {
            Some(m) => {
                if !m.is_running() {
                    self.button_text = String::from_str("Open port");
                }
            },
            None => {},
        }
    }

    /// The selectable flow-control modes, in display order.
    pub fn flow_control_iter(&self) -> (r: Vec<FlowControl>)
        ensures
            r@ == seq![FlowControl::Off, FlowControl::Software, FlowControl::Hardware],
    {
        let mut r: Vec<FlowControl> = Vec::new();
        r.push(FlowControl::Off);
        r.push(FlowControl::Software);
        r.push(FlowControl::Hardware);
        proof {
            assert(r@ =~= seq![FlowControl::Off, FlowControl::Software, FlowControl::Hardware]);
        }
        r
    }

    /// The selectable parity modes, in display order.
    pub fn parity_iter(&self) -> (r: Vec<Parity>)
        ensures
            r@ == seq![Parity::Off, Parity::Even, Parity::Odd],
    {
        let mut r: Vec<Parity> = Vec::new();
        r.push(Parity::Off);
        r.push(Parity::Even);
        r.push(Parity::Odd);
        proof {
            assert(r@ =~= seq![Parity::Off, Parity::Even, Parity::Odd]);
        }
        r
    }

    /// The selectable stop-bit modes, in display order.
    pub fn stop_bits_iter(&self) -> (r: Vec<StopBits>)
        ensures
            r@ == seq![StopBits::One, StopBits::Two],
    {
        let mut r: Vec<StopBits> = Vec::new();
        r.push(StopBits::One);
        r.push(StopBits::Two);
        proof {
            assert(r@ =~= seq![StopBits::One, StopBits::Two]);
        }
        r
    }
}

impl Default for ConnectionPanel {
    /// The same panel `new` builds.
    fn default() -> (r: Self)
        ensures
            r.button_text@ == "Open port"@,
            r.port_list@.len() == 0,
    {
        ConnectionPanel::new()
    }
}

} // verus!
