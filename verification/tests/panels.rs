use serialgui_rs::communicationtrait::{CommunicationManager, TransportSettings};
use serialgui_rs::gui::chart_stream::ChartStream;
use serialgui_rs::gui::connection_panel::{ConnectionAction, ConnectionPanel};
use serialgui_rs::gui::file_log_panel::FileLogPanel;
use serialgui_rs::gui::log_panel::LogPanel;
use serialgui_rs::gui::menu_bar::MenuBar;
use serialgui_rs::gui::rx_panel::RxPanel;
use serialgui_rs::gui::send_panel::SendPanel;
use serialgui_rs::gui::settings_panel::SettingsPanel;
use serialgui_rs::generalsettings::AppSettings;
use serialgui_rs::serial_impl::portsettings::{FlowControl, Parity, StopBits};
use serialgui_rs::serial_impl::SerialCommunication;

fn rx_text(panel: &RxPanel) -> String {
    panel.content.iter().collect()
}

#[test]
fn rx_panel_keeps_only_the_newest_characters() {
    let mut rx = RxPanel::new(3);
    rx.append_log("hello", 3);
    assert_eq!(rx_text(&rx), "llo");
    rx.append_log("x", 3);
    assert_eq!(rx_text(&rx), "lox");
    rx.clear();
    assert_eq!(rx_text(&rx), "");
}

#[test]
fn log_panel_starts_with_banner_and_clamps() {
    let mut log = LogPanel::new(0);
    assert_eq!(log.content, "Starting app\n");
    log.append_log("abc", 5);
    assert_eq!(log.content, "p\nabc");
    log.clear();
    assert_eq!(log.content, "");
}

#[test]
fn send_panel_without_manager_keeps_the_message() {
    let mut panel = SendPanel::new();
    panel.message = "hi".to_string();
    let mut manager: Option<SerialCommunication> = None;
    let cmd = panel.send_message(&mut manager, true);
    assert!(cmd.is_none());
    assert_eq!(panel.message, "hi");
}

#[test]
fn send_panel_while_stopped_sends_nothing() {
    let mut panel = SendPanel::new();
    panel.message = "hi".to_string();
    let mut manager = Some(SerialCommunication::new());
    let cmd = panel.send_message(&mut manager, true);
    assert!(cmd.is_none());
    assert_eq!(panel.message, "hi");
}

#[test]
fn send_panel_while_running_sends_utf8_bytes() {
    let mut panel = SendPanel::new();
    panel.message = "hi".to_string();
    let mut m = SerialCommunication::new();
    m.start().unwrap();
    let mut manager = Some(m);
    let cmd = panel.send_message(&mut manager, true).unwrap();
    assert_eq!(cmd.data, b"hi".to_vec());
    assert_eq!(panel.message, "");
}

#[test]
fn send_panel_can_keep_the_message_after_sending() {
    let mut panel = SendPanel::new();
    panel.message = "keep".to_string();
    let mut m = SerialCommunication::new();
    m.start().unwrap();
    let mut manager = Some(m);
    let cmd = panel.send_message(&mut manager, false).unwrap();
    assert_eq!(cmd.data, b"keep".to_vec());
    assert_eq!(panel.message, "keep");
}

#[test]
fn connection_button_toggles_the_session() {
    let mut panel = ConnectionPanel::new();
    assert_eq!(panel.button_text, "Open port");
    let mut manager = Some(SerialCommunication::new());
    match panel.handle_connection_button(&mut manager) {
        ConnectionAction::StartWorker(cmd) => {
            let TransportSettings::Serial(s) = cmd.settings;
            assert_eq!(s.baudrate, 115200);
        }
        _ => panic!("a stopped manager must be started"),
    }
    assert_eq!(panel.button_text, "Close port");
    assert!(manager.as_ref().unwrap().is_running());
    match panel.handle_connection_button(&mut manager) {
        ConnectionAction::StopWorker(cmd) => assert!(cmd.join_worker),
        _ => panic!("a running manager must be stopped"),
    }
    assert_eq!(panel.button_text, "Open port");
    assert!(!manager.as_ref().unwrap().is_running());
}

#[test]
fn button_text_follows_the_running_state() {
    let mut panel = ConnectionPanel::new();
    panel.button_text = "Close port".to_string();
    let manager = Some(SerialCommunication::new());
    panel.update_button_text(&manager);
    assert_eq!(panel.button_text, "Open port");
}

#[test]
fn update_ports_selects_the_first_entry_or_a_placeholder() {
    let mut panel = ConnectionPanel::new();
    let manager = Some(SerialCommunication::new());
    panel.update_ports(&manager);
    if panel.port_list.is_empty() {
        assert_eq!(panel.port_settings.port_name, "No port");
    } else {
        assert_eq!(panel.port_settings.port_name, panel.port_list[0]);
    }
}

#[test]
fn mode_lists_are_complete_and_ordered() {
    let panel = ConnectionPanel::new();
    assert_eq!(
        panel.flow_control_iter(),
        vec![FlowControl::Off, FlowControl::Software, FlowControl::Hardware]
    );
    assert_eq!(panel.parity_iter(), vec![Parity::Off, Parity::Even, Parity::Odd]);
    assert_eq!(panel.stop_bits_iter(), vec![StopBits::One, StopBits::Two]);
}

#[test]
fn file_log_panel_toggles_and_restamps() {
    let settings = AppSettings::default();
    let mut panel = FileLogPanel::new("first.txt".to_string());
    assert!(!panel.is_logging());
    assert_eq!(panel.button_text, "Start logging");
    panel.begin_logging();
    assert!(panel.is_logging());
    assert_eq!(panel.button_text, "Stop logging");
    assert_eq!(panel.file_path, "first.txt");
    panel.end_logging(&settings, Some("/tmp"));
    assert!(!panel.is_logging());
    assert_eq!(panel.button_text, "Start logging");
    assert!(panel.file_path.starts_with("/tmp/LogFile_"));
    assert!(panel.file_path.ends_with(".txt"));
}

#[test]
fn menu_bar_and_settings_panel_construct() {
    let _menu = MenuBar::new();
    let _settings = SettingsPanel::new();
}

#[test]
fn chart_stream_yields_complete_values_in_order() {
    let mut stream = ChartStream::new();
    let values = stream.process_rx(&b"1.5,2.0,3".to_vec());
    assert_eq!(values, vec!["1.5", "2.0"]);
    assert_eq!(stream.buffer, "3");
    let more = stream.process_rx(&b".5,".to_vec());
    assert_eq!(more, vec!["3.5"]);
    assert_eq!(stream.buffer, "");
}

#[test]
fn chart_stream_trims_and_skips_empty_values() {
    let mut stream = ChartStream::new();
    let values = stream.process_rx(&b" 1 , 2 ,, ,".to_vec());
    assert_eq!(values, vec!["1", "2"]);
    assert_eq!(stream.buffer, "");
}

#[test]
fn chart_stream_clamps_a_runaway_buffer() {
    let mut stream = ChartStream::new();
    let long = vec![b'x'; 60];
    let values = stream.process_rx(&long);
    assert!(values.is_empty());
    assert_eq!(stream.buffer.len(), 20);
    assert_eq!(stream.buffer, "x".repeat(20));
}
