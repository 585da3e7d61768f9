use serialgui_rs::communicationtrait::{
    send_outcome, CommError, CommunicationManager, EPortState, TransportSettings,
};
use serialgui_rs::serial_impl::portsettings::{FlowControl, Parity, PortSettings, StopBits};
use serialgui_rs::serial_impl::worker::{worker_emit_outcome, worker_on_open, worker_step};
use serialgui_rs::serial_impl::SerialCommunication;

fn settings(name: &str, baud: u32) -> PortSettings {
    PortSettings {
        port_name: name.to_string(),
        baudrate: baud,
        flowcontrol: FlowControl::Off,
        parity: Parity::Off,
        stop_bits: StopBits::One,
    }
}

#[test]
fn new_manager_is_closed() {
    let m = SerialCommunication::new();
    assert!(!m.is_running());
}

#[test]
fn send_while_not_running_fails_not_connected() {
    let mut m = SerialCommunication::new();
    match m.send_data(vec![1, 2, 3]) {
        Err(CommError::NotConnected) => {}
        _ => panic!("send on a never-started manager must report NotConnected"),
    }
    assert!(!m.is_running());
}

#[test]
fn happy_path_start_opens() {
    let mut m = SerialCommunication::new();
    m.update_settings(TransportSettings::Serial(settings("COMX", 115200)))
        .unwrap();
    let cmd = m.start().unwrap();
    let TransportSettings::Serial(snap) = cmd.settings;
    assert_eq!(snap.port_name, "COMX");
    assert_eq!(snap.baudrate, 115200);
    assert_eq!(snap.flowcontrol, FlowControl::Off);
    assert_eq!(snap.parity, Parity::Off);
    assert_eq!(snap.stop_bits, StopBits::One);
    assert!(m.is_running());
    // the worker confirms the open and the caller adopts it on its next poll
    let published = worker_on_open(true);
    assert_eq!(published, EPortState::Open);
    m.note_worker_state(published);
    assert!(m.is_running());
}

#[test]
fn start_while_running_is_rejected() {
    let mut m = SerialCommunication::new();
    m.start().unwrap();
    match m.start() {
        Err(CommError::AlreadyRunning) => {}
        _ => panic!("a second start while running must be rejected"),
    }
    assert!(m.is_running());
}

#[test]
fn stop_is_idempotent_and_never_double_joins() {
    let mut m = SerialCommunication::new();
    m.start().unwrap();
    let first = m.stop();
    assert!(first.join_worker);
    let second = m.stop();
    assert!(!second.join_worker);
    assert!(!m.is_running());
}

#[test]
fn stop_when_never_started_is_a_no_op() {
    let mut m = SerialCommunication::new();
    let cmd = m.stop();
    assert!(!cmd.join_worker);
    assert!(!m.is_running());
}

#[test]
fn after_stop_not_running_and_send_fails() {
    let mut m = SerialCommunication::new();
    m.start().unwrap();
    m.stop();
    assert!(!m.is_running());
    match m.send_data(vec![0x41]) {
        Err(CommError::NotConnected) => {}
        _ => panic!("send after stop must report NotConnected"),
    }
}

#[test]
fn open_failure_ends_closed_and_stop_stays_safe() {
    let mut m = SerialCommunication::new();
    m.update_settings(TransportSettings::Serial(settings("no-such-port", 9600)))
        .unwrap();
    m.start().unwrap();
    // the worker fails to open, publishes Closed, and never enters its loop
    let published = worker_on_open(false);
    assert_eq!(published, EPortState::Closed);
    m.note_worker_state(published);
    assert!(!m.is_running());
    // the handle is still retained, and stop must still be safe to call
    let cmd = m.stop();
    assert!(cmd.join_worker);
    let again = m.stop();
    assert!(!again.join_worker);
}

#[test]
fn graceful_shutdown_with_pending_data_writes_nothing() {
    let mut m = SerialCommunication::new();
    m.start().unwrap();
    let cmd = m.send_data(vec![0x41, 0x42]).unwrap();
    assert_eq!(cmd.data, vec![0x41, 0x42]);
    m.stop();
    // the worker observes the cancellation with the payload still pending:
    // it exits without writing it -- no drain is promised
    let step = worker_step(EPortState::Closed, None, Some(cmd.data));
    assert!(step.exit);
    assert!(step.write.is_none());
    assert!(step.emit.is_none());
}

#[test]
fn worker_step_forwards_data_and_commands_while_open() {
    let step = worker_step(EPortState::Open, Some(vec![1, 2]), Some(vec![3]));
    assert!(!step.exit);
    match step.emit {
        Some(serialgui_rs::communicationtrait::CommunicationEvent::DataReceived(d)) => {
            assert_eq!(d, vec![1, 2]);
        }
        _ => panic!("an inbound chunk must become one data event"),
    }
    assert_eq!(step.write, Some(vec![3]));
}

#[test]
fn worker_step_exits_on_cancellation() {
    let step = worker_step(EPortState::Closed, Some(vec![1]), Some(vec![2]));
    assert!(step.exit);
    assert!(step.emit.is_none());
    assert!(step.write.is_none());
}

#[test]
fn worker_exits_when_receiver_dropped() {
    assert!(worker_emit_outcome(false));
    assert!(!worker_emit_outcome(true));
}

#[test]
fn update_settings_takes_effect_on_next_start() {
    let mut m = SerialCommunication::new();
    let first = m.start().unwrap();
    let TransportSettings::Serial(s1) = first.settings;
    assert_eq!(s1.baudrate, 115200);
    // replacing the settings while running leaves the session untouched
    m.update_settings(TransportSettings::Serial(settings("COM1", 9600)))
        .unwrap();
    assert!(m.is_running());
    m.stop();
    let second = m.start().unwrap();
    let TransportSettings::Serial(s2) = second.settings;
    assert_eq!(s2.port_name, "COM1");
    assert_eq!(s2.baudrate, 9600);
}

#[test]
fn undelivered_push_is_the_not_connected_condition() {
    assert!(send_outcome(true).is_ok());
    match send_outcome(false) {
        Err(CommError::NotConnected) => {}
        _ => panic!("an undelivered payload must report NotConnected"),
    }
}
