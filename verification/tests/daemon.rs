use camouflage::{get_pid_file, parse_pid, DaemonConfig};

#[test]
fn pid_file_lives_in_the_config_directory() {
    assert_eq!(
        get_pid_file("/home/user/.config/camouflage"),
        "/home/user/.config/camouflage/camouflage.pid"
    );
    assert_eq!(get_pid_file(""), "/camouflage.pid");
}

#[test]
fn pid_parsing_accepts_digits_with_surrounding_whitespace() {
    assert_eq!(parse_pid(b"1234"), Some(1234));
    assert_eq!(parse_pid(b"1234\n"), Some(1234));
    assert_eq!(parse_pid(b"  42  \t\r\n"), Some(42));
    assert_eq!(parse_pid(b"007"), Some(7));
    assert_eq!(parse_pid(b"0"), Some(0));
    assert_eq!(parse_pid(b"2147483647"), Some(i32::MAX));
}

#[test]
fn pid_parsing_rejects_garbage_and_overflow() {
    assert_eq!(parse_pid(b""), None);
    assert_eq!(parse_pid(b"   \n"), None);
    assert_eq!(parse_pid(b"abc"), None);
    assert_eq!(parse_pid(b"12a4"), None);
    assert_eq!(parse_pid(b"12 34"), None);
    assert_eq!(parse_pid(b"-5"), None);
    assert_eq!(parse_pid(b"2147483648"), None);
    assert_eq!(parse_pid(b"99999999999999999999"), None);
}

#[test]
fn default_daemon_configuration() {
    let c = DaemonConfig::default();
    assert_eq!(c.mode, "speaker");
    assert_eq!(c.amplitude_thousandths, 250);
    assert_eq!(c.frequency_millihertz, 23_000_000);
    assert!(c.auto_start);
}
