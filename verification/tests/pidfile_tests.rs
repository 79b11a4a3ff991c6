use dir_lock::Error;
use dir_lock::pidfile::{format_pid_line, parse_pid};

#[test]
fn format_renders_decimal_and_newline() {
    assert_eq!(format_pid_line(4242), b"4242\n".to_vec());
    assert_eq!(format_pid_line(0), b"0\n".to_vec());
    assert_eq!(format_pid_line(7), b"7\n".to_vec());
    assert_eq!(format_pid_line(10), b"10\n".to_vec());
    assert_eq!(format_pid_line(u32::MAX), b"4294967295\n".to_vec());
}

#[test]
fn parse_reads_plain_decimal() {
    assert!(matches!(parse_pid(b"4242\n"), Ok(4242)));
    assert!(matches!(parse_pid(b"0"), Ok(0)));
    assert!(matches!(parse_pid(b"4294967295"), Ok(4294967295)));
}

#[test]
fn parse_trims_surrounding_whitespace() {
    assert!(matches!(parse_pid(b" 42 \t"), Ok(42)));
    assert!(matches!(parse_pid(b"\r\n99\r\n"), Ok(99)));
}

#[test]
fn parse_accepts_leading_plus_and_zeros() {
    assert!(matches!(parse_pid(b"+7"), Ok(7)));
    assert!(matches!(parse_pid(b"007"), Ok(7)));
}

#[test]
fn parse_rejects_empty_and_blank() {
    assert!(matches!(parse_pid(b""), Err(Error::ParseInt)));
    assert!(matches!(parse_pid(b"  \n"), Err(Error::ParseInt)));
}

#[test]
fn parse_rejects_malformed_text() {
    assert!(matches!(parse_pid(b"not-a-number"), Err(Error::ParseInt)));
    assert!(matches!(parse_pid(b"+"), Err(Error::ParseInt)));
    assert!(matches!(parse_pid(b"-1"), Err(Error::ParseInt)));
    assert!(matches!(parse_pid(b"12 34"), Err(Error::ParseInt)));
    assert!(matches!(parse_pid(b"42x"), Err(Error::ParseInt)));
}

#[test]
fn parse_rejects_overflowing_identifier() {
    assert!(matches!(parse_pid(b"4294967296"), Err(Error::ParseInt)));
    assert!(matches!(parse_pid(b"99999999999999999999"), Err(Error::ParseInt)));
}

#[test]
fn format_then_parse_round_trips() {
    for pid in [0u32, 1, 9, 10, 4242, 123456789, u32::MAX] {
        let line = format_pid_line(pid);
        match parse_pid(line.as_slice()) {
            Ok(back) => assert_eq!(back, pid),
            Err(_) => panic!("round trip failed for {pid}"),
        }
    }
}
