use netpong::arguments::{parse_player, parse_server, parse_u16};

fn strings(words: &[&str]) -> Vec<String> {
    words.iter().map(|w| w.to_string()).collect()
}

#[test]
fn port_numbers_parse_exactly() {
    assert_eq!(parse_u16(&"0".to_string()), Some(0));
    assert_eq!(parse_u16(&"8080".to_string()), Some(8080));
    assert_eq!(parse_u16(&"65535".to_string()), Some(65535));
    assert_eq!(parse_u16(&"00080".to_string()), Some(80));
    assert_eq!(parse_u16(&"65536".to_string()), None);
    assert_eq!(parse_u16(&"999999999999".to_string()), None);
    assert_eq!(parse_u16(&"12a".to_string()), None);
    assert_eq!(parse_u16(&"-1".to_string()), None);
    assert_eq!(parse_u16(&"".to_string()), None);
}

#[test]
fn server_port_is_required_and_ip_defaults_to_loopback() {
    assert_eq!(
        parse_server(&strings(&["-p", "8080"])),
        Some(("127.0.0.1".to_string(), 8080))
    );
    assert_eq!(parse_server(&strings(&[])), None);
    assert_eq!(parse_server(&strings(&["-i", "0.0.0.0"])), None);
}

#[test]
fn server_flags_come_in_any_order_and_either_spelling() {
    assert_eq!(
        parse_server(&strings(&["--ip", "10.0.0.1", "--port", "9000"])),
        Some(("10.0.0.1".to_string(), 9000))
    );
    assert_eq!(
        parse_server(&strings(&["-p", "9000", "-i", "10.0.0.1"])),
        Some(("10.0.0.1".to_string(), 9000))
    );
}

#[test]
fn later_server_flags_win() {
    assert_eq!(
        parse_server(&strings(&["-p", "1", "-p", "2"])),
        Some(("127.0.0.1".to_string(), 2))
    );
}

#[test]
fn bad_server_arguments_are_rejected() {
    assert_eq!(parse_server(&strings(&["-p"])), None);
    assert_eq!(parse_server(&strings(&["-p", "80", "extra"])), None);
    assert_eq!(parse_server(&strings(&["-x", "1", "-p", "80"])), None);
    assert_eq!(parse_server(&strings(&["-p", "70000"])), None);
    assert_eq!(parse_server(&strings(&["-p", "eighty"])), None);
}

#[test]
fn player_needs_both_ports() {
    assert_eq!(
        parse_player(&strings(&["-p", "7000", "--server-port", "8080"])),
        Some(("127.0.0.1".to_string(), 7000, "127.0.0.1".to_string(), 8080))
    );
    assert_eq!(parse_player(&strings(&["-p", "7000"])), None);
    assert_eq!(parse_player(&strings(&["--server-port", "8080"])), None);
}

#[test]
fn player_addresses_can_be_set() {
    assert_eq!(
        parse_player(&strings(&[
            "--server-ip", "192.168.0.2", "--server-port", "8080", "-i", "192.168.0.3", "-p",
            "7000",
        ])),
        Some(("192.168.0.3".to_string(), 7000, "192.168.0.2".to_string(), 8080))
    );
}
