use rsm::messaging::message::Severity;
use rsm::probes::https;
use rsm::probes::ping;
use rsm::probes::Probes;

#[test]
fn ping_test_conf() {
    let p = ping::new(String::from("testService"), String::from("127.0.0.1"));

    assert_eq!(p.host, "127.0.0.1");
    assert_eq!(p.service, "testService");
}

fn pinger() -> ping::Ping {
    ping::new(String::from("testService"), String::from("127.0.0.1"))
}

#[test]
fn ping_exit_code_zero_is_success() {
    let m = pinger().report(String::from("t"), Some(0), &b"ok".to_vec());
    assert_eq!(m.header, "Ping successful");
    assert_eq!(m.severity, Severity::Info);
    assert_eq!(m.probe, Probes::Ping);
    assert_eq!(m.service, "testService");
    assert_eq!(m.date, "t");
    assert_eq!(m.body, "ok");
}

#[test]
fn ping_exit_code_one_is_unreachable() {
    let m = pinger().report(String::from("t"), Some(1), &Vec::new());
    assert_eq!(m.header, "Unreachable host");
    assert_eq!(m.severity, Severity::Error);
}

#[test]
fn ping_exit_code_two_is_invalid_host() {
    let m = pinger().report(String::from("t"), Some(2), &Vec::new());
    assert_eq!(m.header, "Invalid host");
    assert_eq!(m.severity, Severity::Error);
}

#[test]
fn ping_other_exits_are_unknown_errors() {
    let m = pinger().report(String::from("t"), Some(68), &Vec::new());
    assert_eq!(m.header, "Unknown error");
    assert_eq!(m.severity, Severity::Error);
    let m = pinger().report(String::from("t"), None, &Vec::new());
    assert_eq!(m.header, "Unknown error");
    assert_eq!(m.severity, Severity::Error);
}

#[test]
fn ping_body_drops_bytes_from_123_up() {
    let output: Vec<u8> = vec![b'a', 123, b'b', 0xc3, 0xa9, b'\n', 122, 200, b'~'];
    let m = pinger().report(String::from("t"), Some(0), &output);
    assert_eq!(m.body, "ab\nz");
    assert_eq!(ping::keep_printable(&output), vec![b'a', b'b', b'\n', 122]);
}

#[test]
fn ping_report_now_is_dated() {
    let m = pinger().report_now(Some(1), &b"x".to_vec());
    assert!(!m.date.is_empty());
    assert_eq!(m.header, "Unreachable host");
    assert_eq!(m.body, "x");
}

fn checker() -> https::Https {
    https::new(String::from("site"), String::from("example.org"))
}

#[test]
fn https_new_keeps_host_and_service() {
    let h = checker();
    assert_eq!(h.host, "example.org");
    assert_eq!(h.service, "site");
}

#[test]
fn certificate_one_day_left_is_an_error() {
    let m = checker().report(String::from("t"), 1);
    assert_eq!(m.severity, Severity::Error);
    assert_eq!(m.header, "Certificate is about to expire, 1 days remaining");
    assert_eq!(m.probe, Probes::Https);
}

#[test]
fn certificate_six_days_left_is_a_warning() {
    let m = checker().report(String::from("t"), 6);
    assert_eq!(m.severity, Severity::Warning);
    assert_eq!(m.header, "Certificate expires soon, 6 days remaining");
}

#[test]
fn certificate_two_days_left_is_a_warning() {
    let m = checker().report(String::from("t"), 2);
    assert_eq!(m.severity, Severity::Warning);
    assert_eq!(m.header, "Certificate expires soon, 2 days remaining");
}

#[test]
fn certificate_zero_days_left_is_info() {
    let m = checker().report(String::from("t"), 0);
    assert_eq!(m.severity, Severity::Info);
    assert_eq!(m.header, "Certificate expires in 0 days");
}

#[test]
fn certificate_seven_days_left_is_info() {
    let m = checker().report(String::from("t"), 7);
    assert_eq!(m.severity, Severity::Info);
    assert_eq!(m.header, "Certificate expires in 7 days");
    let m = checker().report(String::from("t"), 365);
    assert_eq!(m.header, "Certificate expires in 365 days");
}

#[test]
fn certificate_expired_yesterday_is_an_error() {
    let m = checker().report(String::from("t"), -1);
    assert_eq!(m.severity, Severity::Error);
    assert_eq!(m.header, "Certificate expired 1 days ago");
    let m = checker().report(String::from("t"), i32::MIN);
    assert_eq!(m.header, "Certificate expired 2147483648 days ago");
}

#[test]
fn https_connection_failure_message() {
    let m = checker().connection_failure(String::from("t"), String::from("handshake failed"));
    assert_eq!(m.severity, Severity::Error);
    assert_eq!(m.header, "critical error while connecting to https service");
    assert_eq!(m.body, "handshake failed");
    assert_eq!(m.service, "site");
    let m = checker().connection_failure_now(String::from("refused"));
    assert!(!m.date.is_empty());
    let m = checker().report_now(3);
    assert!(!m.date.is_empty());
    assert_eq!(m.severity, Severity::Warning);
}
