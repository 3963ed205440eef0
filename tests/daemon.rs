use rsm::daemon::{Daemon, ProbeSpec, ProbeState, Settings, Verdict};
use rsm::messaging::message::{Message, Severity};
use rsm::probes::{https, ping, Probes};

fn msg(severity: Severity, header: &str) -> Message {
    Message {
        date: String::from("1970-01-01T00:00:00Z"),
        service: String::from("svc"),
        probe: Probes::Ping,
        severity,
        header: String::from(header),
        body: String::new(),
    }
}

#[test]
fn info_is_never_sent_and_changes_nothing() {
    let mut st = ProbeState::new();
    assert!(st.observe(&msg(Severity::Error, "down"), 2, 3));
    st.observe(&msg(Severity::Error, "down"), 2, 3);
    for _ in 0..5 {
        assert!(!st.observe(&msg(Severity::Info, "up"), 0, 0));
        assert_eq!(st.repeat_counter, 1);
        assert_eq!(st.last_message.header, "down");
    }
}

#[test]
fn each_new_situation_is_sent_and_resets() {
    let mut st = ProbeState::new();
    let seq = [
        msg(Severity::Error, "a"),
        msg(Severity::Warning, "a"),
        msg(Severity::Warning, "b"),
        msg(Severity::Error, "b"),
    ];
    for m in seq.iter() {
        assert!(st.observe(m, 10, 10));
        assert_eq!(st.repeat_counter, 0);
        assert!(st.last_message == *m);
        assert!(!st.observe(m, 10, 10));
        assert_eq!(st.repeat_counter, 1);
    }
}

#[test]
fn repeated_error_follows_the_counter() {
    let mut st = ProbeState::new();
    let m = msg(Severity::Error, "down");
    let sent: Vec<bool> = (0..7).map(|_| st.observe(&m, 2, 100)).collect();
    // first change, then counters 0, 1 below the period, then 2, 3, 4, 5 at or above it
    assert_eq!(sent, vec![true, false, false, true, true, true, true]);
    assert_eq!(st.repeat_counter, 6);
}

#[test]
fn repeated_warning_uses_the_warning_period() {
    let mut st = ProbeState::new();
    let m = msg(Severity::Warning, "slow");
    let sent: Vec<bool> = (0..4).map(|_| st.observe(&m, 0, 1)).collect();
    assert_eq!(sent, vec![true, false, true, true]);
}

#[test]
fn zero_period_resends_every_cycle() {
    let mut st = ProbeState::new();
    let m = msg(Severity::Error, "down");
    assert!(st.observe(&m, 0, 0));
    assert!(st.observe(&m, 0, 0));
    assert!(st.observe(&m, 0, 0));
}

#[test]
fn counter_stays_at_its_largest_value() {
    let mut st = ProbeState::new();
    let m = msg(Severity::Error, "down");
    st.observe(&m, 0, 0);
    st.repeat_counter = u64::MAX;
    assert!(st.observe(&m, 5, 5));
    assert_eq!(st.repeat_counter, u64::MAX);
}

fn probes() -> Vec<ProbeSpec> {
    vec![
        ProbeSpec::Ping(ping::new(String::from("a"), String::from("127.0.0.1"))),
        ProbeSpec::Https(https::new(String::from("b"), String::from("example.org"))),
    ]
}

#[test]
fn settings_take_defaults() {
    let s = Settings::with_defaults(None, None, None, None, None);
    assert_eq!(s.delay, 600);
    assert_eq!(s.delay_at_startup, 30);
    assert_eq!(s.error_repeat_period, 6);
    assert_eq!(s.warning_repeat_period, 144);
    assert!(!s.debug);
    let s = Settings::with_defaults(Some(1), Some(2), Some(3), Some(4), Some(true));
    assert_eq!(s, Settings {
        delay: 1,
        delay_at_startup: 2,
        error_repeat_period: 3,
        warning_repeat_period: 4,
        debug: true,
    });
}

#[test]
fn debug_mode_never_notifies() {
    let settings = Settings::with_defaults(None, None, Some(0), Some(0), Some(true));
    let mut d = Daemon::new(settings, probes());
    for _ in 0..3 {
        for sev in [Severity::Error, Severity::Warning, Severity::Info] {
            assert_eq!(d.observe(0, &msg(sev, "x")), Verdict::Show);
            assert_eq!(d.observe(1, &msg(sev, "y")), Verdict::Show);
        }
    }
    let mut normal = Daemon::new(Settings::with_defaults(None, None, Some(0), Some(0), None), probes());
    assert_eq!(normal.observe(0, &msg(Severity::Error, "x")), Verdict::Notify);
}

#[test]
fn daemon_keeps_one_state_per_probe() {
    let settings = Settings::with_defaults(None, None, Some(1), Some(1), None);
    let mut d = Daemon::new(settings, probes());
    assert_eq!(d.n_probes(), 2);
    assert!(matches!(d.probes()[1], ProbeSpec::Https(_)));
    let down = msg(Severity::Error, "down");
    assert_eq!(d.observe(0, &down), Verdict::Notify);
    assert_eq!(d.observe(0, &down), Verdict::Skip);
    // the second probe has its own state
    assert_eq!(d.observe(1, &down), Verdict::Notify);
    assert_eq!(d.observe(0, &down), Verdict::Notify);
    assert_eq!(d.observe(0, &msg(Severity::Info, "up")), Verdict::Skip);
}

#[test]
fn sleeping_stops_at_delay_or_shutdown() {
    let d = Daemon::new(Settings::with_defaults(Some(3), None, None, None, None), Vec::new());
    assert!(d.keep_sleeping(0, true));
    assert!(d.keep_sleeping(2, true));
    assert!(!d.keep_sleeping(3, true));
    assert!(!d.keep_sleeping(0, false));
}

#[test]
fn sweep_decides_probe_by_probe() {
    let settings = Settings::with_defaults(None, None, Some(1), Some(5), None);
    let mut d = Daemon::new(settings, probes());
    let pass = vec![msg(Severity::Error, "down"), msg(Severity::Info, "fine")];
    assert_eq!(d.sweep(&pass), vec![Verdict::Notify, Verdict::Skip]);
    assert_eq!(d.sweep(&pass), vec![Verdict::Skip, Verdict::Skip]);
    assert_eq!(d.sweep(&pass), vec![Verdict::Notify, Verdict::Skip]);
    let pass = vec![msg(Severity::Error, "down"), msg(Severity::Warning, "slow")];
    assert_eq!(d.sweep(&pass), vec![Verdict::Notify, Verdict::Notify]);
    let debug = Settings::with_defaults(None, None, None, None, Some(true));
    let mut d = Daemon::new(debug, probes());
    assert_eq!(d.sweep(&pass), vec![Verdict::Show, Verdict::Show]);
}
