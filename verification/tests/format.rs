use serialgui_rs::communicationtrait::CommunicationEvent;
use serialgui_rs::events::apply_event;
use serialgui_rs::generalsettings::AppSettings;
use serialgui_rs::gui::connection_panel::ConnectionPanel;
use serialgui_rs::gui::rx_panel::RxPanel;
use serialgui_rs::rxformat::format_received;

fn rx_text(panel: &RxPanel) -> String {
    panel.content.iter().collect()
}

#[test]
fn byte_mode_renders_hex_pairs() {
    assert_eq!(format_received(&vec![0x41, 0x42], true), "41 42 ");
    assert_eq!(format_received(&vec![0x0F], true), "0F ");
    assert_eq!(format_received(&vec![0xFF, 0x00, 0x9A], true), "FF 00 9A ");
    assert_eq!(format_received(&vec![], true), " ");
}

#[test]
fn text_mode_decodes_utf8() {
    assert_eq!(format_received(&vec![0x41, 0x42], false), "AB");
    assert_eq!(format_received(&vec![], false), "");
    // an invalid byte becomes the replacement character, the rest survives
    assert_eq!(format_received(&vec![0xFF, 0x41], false), "\u{FFFD}A");
}

#[test]
fn data_event_lands_in_the_rx_panel_and_the_file_log() {
    let mut rx = RxPanel::new(100);
    let mut conn = ConnectionPanel::new();
    let settings = AppSettings::default();
    let logged = apply_event(
        &mut rx,
        &mut conn,
        &settings,
        CommunicationEvent::DataReceived(vec![0x41, 0x42]),
    );
    assert_eq!(rx_text(&rx), "AB");
    assert_eq!(logged, Some(vec![0x41, 0x42]));
    assert_eq!(conn.button_text, "Open port");
}

#[test]
fn data_event_in_byte_mode_renders_hex() {
    let mut rx = RxPanel::new(100);
    let mut conn = ConnectionPanel::new();
    let mut settings = AppSettings::default();
    settings.byte_mode = true;
    apply_event(
        &mut rx,
        &mut conn,
        &settings,
        CommunicationEvent::DataReceived(vec![0x01, 0xA0]),
    );
    assert_eq!(rx_text(&rx), "01 A0 ");
}

#[test]
fn closed_event_resets_the_connect_button() {
    let mut rx = RxPanel::new(100);
    let mut conn = ConnectionPanel::new();
    conn.button_text = "Close port".to_string();
    let settings = AppSettings::default();
    let logged = apply_event(
        &mut rx,
        &mut conn,
        &settings,
        CommunicationEvent::ConnectionClosed,
    );
    assert_eq!(conn.button_text, "Open port");
    assert_eq!(logged, None);
    assert_eq!(rx_text(&rx), "");
}

#[test]
fn error_event_changes_nothing() {
    let mut rx = RxPanel::new(100);
    let mut conn = ConnectionPanel::new();
    let settings = AppSettings::default();
    let logged = apply_event(
        &mut rx,
        &mut conn,
        &settings,
        CommunicationEvent::Error("boom".to_string()),
    );
    assert_eq!(logged, None);
    assert_eq!(rx_text(&rx), "");
    assert_eq!(conn.button_text, "Open port");
}
