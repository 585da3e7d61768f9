use vstd::prelude::*;

use crate::communicationtrait::{CommunicationEvent, CommunicationEventV};
use crate::generalsettings::AppSettings;
use crate::gui::connection_panel::ConnectionPanel;
use crate::gui::rx_panel::{ring_append, RxPanel};
use crate::rxformat::{format_received, hex_line, utf8_lossy};

verus! {

/// Apply one polled communication event to the caller's panels: received
/// data is rendered (hexadecimal pairs in byte mode, lossy text otherwise)
/// and appended to the bounded received-data ring, and its raw bytes are
/// returned for the file log; a closure notice resets the connect button;
/// errors change nothing here.
pub fn apply_event(
    rx_panel: &mut RxPanel,
    connection_panel: &mut ConnectionPanel,
    settings: &AppSettings,
    event: CommunicationEvent,
) -> (r: Option<Vec<u8>>)
    ensures
        event@ matches CommunicationEventV::DataReceived(d) ==> {
            &&& final(rx_panel).content@ == ring_append(
                old(rx_panel).content@,
                if settings.byte_mode {
                    hex_line(d)
                } else {
                    utf8_lossy(d)
                },
                settings.max_log_string_length as nat,
            )
            &&& *final(connection_panel) == *old(connection_panel)
            &&& r matches Some(b) && b@ == d
        },
        event@ is ConnectionClosed ==> {
            &&& *final(rx_panel) == *old(rx_panel)
            &&& final(connection_panel).button_text@ == "Open port"@
            &&& final(connection_panel).port_settings@ == old(connection_panel).port_settings@
            &&& final(connection_panel).port_list@ == old(connection_panel).port_list@
            &&& r is None
        },
        event@ matches CommunicationEventV::Error(_) ==> {
            &&& *final(rx_panel) == *old(rx_panel)
            &&& *final(connection_panel) == *old(connection_panel)
            &&& r is None
        },
{
    match event {
        CommunicationEvent::DataReceived(data) => {
            let message = format_received(&data, settings.byte_mode);
            rx_panel.append_log(message.as_str(), settings.max_log_string_length);
            Some(data)
        },
        CommunicationEvent::ConnectionClosed => {
            connection_panel.button_text = String::from_str("Open port");
            None
        },
        CommunicationEvent::Error(_) => None,
    }
}

} // verus!
