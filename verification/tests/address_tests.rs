use openbn::address::ibus_address_from_config;

#[test]
fn address_line_is_found() {
    let content = "# comment\nIBUS_ADDRESS=unix:path=/tmp/ibus-x\nIBUS_DAEMON_PID=42\n";
    assert_eq!(ibus_address_from_config(content), Some("unix:path=/tmp/ibus-x".to_string()));
}

#[test]
fn quotes_are_trimmed() {
    assert_eq!(
        ibus_address_from_config("IBUS_ADDRESS='unix:abstract=/tmp/a'"),
        Some("unix:abstract=/tmp/a".to_string())
    );
    assert_eq!(
        ibus_address_from_config("IBUS_ADDRESS=\"unix:abstract=/tmp/b\"\n"),
        Some("unix:abstract=/tmp/b".to_string())
    );
    assert_eq!(
        ibus_address_from_config("IBUS_ADDRESS='\"x\"'"),
        Some("x".to_string())
    );
}

#[test]
fn crlf_line_endings() {
    assert_eq!(
        ibus_address_from_config("A=1\r\nIBUS_ADDRESS=unix:x\r\nB=2"),
        Some("unix:x".to_string())
    );
}

#[test]
fn first_address_line_wins() {
    assert_eq!(
        ibus_address_from_config("IBUS_ADDRESS=one\nIBUS_ADDRESS=two\n"),
        Some("one".to_string())
    );
}

#[test]
fn repeated_key_is_stripped() {
    assert_eq!(
        ibus_address_from_config("IBUS_ADDRESS=IBUS_ADDRESS=z"),
        Some("z".to_string())
    );
}

#[test]
fn no_address_line() {
    assert_eq!(ibus_address_from_config(""), None);
    assert_eq!(ibus_address_from_config("FOO=bar\n\n"), None);
    assert_eq!(ibus_address_from_config(" IBUS_ADDRESS=x"), None);
}
