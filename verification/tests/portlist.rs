use serialgui_rs::communicationtrait::CommunicationManager;
use serialgui_rs::portlist::{sorted_port_list, str_lex_le};
use serialgui_rs::serial_impl::SerialCommunication;

#[test]
fn identifiers_come_out_lexicographic() {
    let names = vec![
        "ttyUSB1".to_string(),
        "ttyACM0".to_string(),
        "ttyS0".to_string(),
    ];
    let sorted = sorted_port_list(names);
    assert_eq!(sorted, vec!["ttyACM0", "ttyS0", "ttyUSB1"]);
}

#[test]
fn duplicates_are_kept() {
    let names = vec!["b".to_string(), "a".to_string(), "b".to_string()];
    let sorted = sorted_port_list(names);
    assert_eq!(sorted, vec!["a", "b", "b"]);
}

#[test]
fn sorting_is_deterministic_for_a_fixed_set() {
    let one = sorted_port_list(vec![
        "COM3".to_string(),
        "COM10".to_string(),
        "COM1".to_string(),
    ]);
    let other = sorted_port_list(vec![
        "COM1".to_string(),
        "COM3".to_string(),
        "COM10".to_string(),
    ]);
    assert_eq!(one, other);
    assert_eq!(one, vec!["COM1", "COM10", "COM3"]);
}

#[test]
fn string_order_is_lexicographic() {
    assert!(str_lex_le("", "a"));
    assert!(str_lex_le("a", "a"));
    assert!(str_lex_le("ab", "b"));
    assert!(!str_lex_le("b", "ab"));
    assert!(str_lex_le("ab", "abc"));
    assert!(!str_lex_le("abc", "ab"));
}

#[test]
fn enumeration_is_stable_under_unchanged_hardware() {
    let m = SerialCommunication::new();
    let first = m.get_available_connections();
    let second = m.get_available_connections();
    assert_eq!(first, second);
    for pair in first.windows(2) {
        assert!(str_lex_le(&pair[0], &pair[1]));
    }
}
