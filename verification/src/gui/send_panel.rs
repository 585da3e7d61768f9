use vstd::prelude::*;

use crate::communicationtrait::{running_state, CommunicationManager, SendCommand};
use vstd::utf8::encode_utf8;

verus! {

/// The outbound-message panel: holds the text the user is composing.
pub struct SendPanel {
    pub message: String,
}

impl SendPanel {
    /// An empty message.
    pub fn new() -> (r: Self)
        ensures
            r.message@ == Seq::<char>::empty(),
    {
        SendPanel { message: String::new() }
    }

    /// Hand the composed message to the manager: while running and
    /// connected, the message's UTF-8 bytes become one send command (and the
    /// field is cleared if so configured); otherwise nothing is sent and the
    /// message is kept.
    pub fn send_message<M: CommunicationManager>(
        &mut self,
        manager: &mut Option<M>,
        clear_after_send: bool,
    ) -> (r: Option<SendCommand>)
        requires
            (*old(manager)) matches Some(m) ==> m.inv(),
        ensures
            (*old(manager)) is None ==> {
                &&& r is None
                &&& final(self).message@ == old(self).message@
                &&& (*final(manager)) is None
            },
            (*old(manager)) matches Some(m) ==> {
                &&& ((*final(manager)) matches Some(m2) && {
                    &&& m2.inv()
                    &&& m2.state() == m.state()
                    &&& m2.connected() == m.connected()
                    &&& m2.worker_retained() == m.worker_retained()
                    &&& m2.settings_view() == m.settings_view()
                })
                &&& (running_state(m.state()) && m.connected()) ==> {
                    &&& r matches Some(cmd) && cmd.data@ == encode_utf8(old(self).message@)
                    &&& clear_after_send ==> final(self).message@ == Seq::<char>::empty()
                    &&& !clear_after_send ==> final(self).message@ == old(self).message@
                }
                &&& !(running_state(m.state()) && m.connected()) ==> {
                    &&& r is None
                    &&& final(self).message@ == old(self).message@
                }
            },
    {
        match manager {
            Some(m) => {
                if m.is_running() {
                    let bytes = vstd::slice::slice_to_vec(self.message.as_str().as_bytes());
                    match m.send_data(bytes) {
                        Ok(cmd) => {
                            if clear_after_send {
                                self.message = String::new();
                            }
                            Some(cmd)
                        },
                        Err(_) => None,
                    }
                } else {
                    None
                }
            },
            None => None,
        }
    }
}

impl Default for SendPanel {
    /// The same panel `new` builds.
    fn default() -> (r: Self)
        ensures
            r.message@ == Seq::<char>::empty(),
    {
        SendPanel::new()
    }
}

} // verus!
