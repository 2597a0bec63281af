use mqnutd::config::{DaemonConfig, PlanConfig, TopicsConfig};
use mqnutd::percent::Percent;
use mqnutd::plan::TriggerLatch;
use mqnutd::subscriber::{
    classify_publish, maybe_trigger, reconnect_timeout, BrokerEvent, Incoming, LinkMonitor,
    UpsState,
};

fn topics() -> TopicsConfig {
    TopicsConfig {
        status: "ups/status".to_string(),
        charge: "ups/charge".to_string(),
        lwt: "ups/lwt".to_string(),
    }
}

fn plan() -> PlanConfig {
    PlanConfig {
        charge_threshold: Percent::from_bits(20.0f32.to_bits()),
        trigger_statuses: vec!["LB".to_string()],
    }
}

fn classify(topic: &str, payload: &[u8]) -> Incoming {
    classify_publish(&topics(), &topic.to_string(), payload)
}

fn pct(v: f32) -> Option<Percent> {
    Some(Percent::from_bits(v.to_bits()))
}

#[test]
fn messages_are_routed_by_topic_and_trimmed() {
    assert!(matches!(classify("ups/status", b" OB LB \n"), Incoming::Status(s) if s == "OB LB"));
    assert!(matches!(classify("ups/charge", b"\t18.5\r\n"), Incoming::Charge(s) if s == "18.5"));
    assert!(matches!(classify("ups/lwt", b"offline"), Incoming::LwtOffline));
    assert!(matches!(classify("ups/lwt", b" OffLine\n"), Incoming::LwtOffline));
    assert!(matches!(classify("ups/lwt", b"online"), Incoming::Other));
    assert!(matches!(classify("ups/lwt", b"offline!"), Incoming::Other));
    assert!(matches!(classify("other", b"offline"), Incoming::Other));
}

#[test]
fn non_utf8_payloads_are_ignored() {
    assert!(matches!(classify("ups/status", &[0x4f, 0xff, 0x42]), Incoming::NotUtf8));
    assert!(matches!(classify("ups/status", "Ö".as_bytes()), Incoming::Status(s) if s == "Ö"));
}

#[test]
fn status_topic_wins_over_the_others() {
    let shared = TopicsConfig {
        status: "t".to_string(),
        charge: "t".to_string(),
        lwt: "t".to_string(),
    };
    let r = classify_publish(&shared, &"t".to_string(), b"offline");
    assert!(matches!(r, Incoming::Status(s) if s == "offline"));
}

#[test]
fn state_records_what_messages_say() {
    let mut s = UpsState::new();
    s.record(Incoming::Status("OB".to_string()), None);
    assert_eq!(s.status.as_deref(), Some("OB"));
    s.record(Incoming::Charge("18.5".to_string()), pct(18.5));
    assert_eq!(s.charge, pct(18.5));
    s.record(Incoming::Charge("junk".to_string()), None);
    assert_eq!(s.charge, None);
    assert_eq!(s.status.as_deref(), Some("OB"));
    s.record(Incoming::Other, pct(1.0));
    assert_eq!(s.charge, None);
    assert!(!s.lwt_offline);
    s.record(Incoming::LwtOffline, None);
    assert!(s.lwt_offline);
}

#[test]
fn state_decisions() {
    let p = plan();
    let mut s = UpsState::new();
    assert!(!s.should_shutdown(&p));
    s.status = Some("OB".to_string());
    assert!(!s.should_shutdown(&p));
    s.charge = pct(25.0);
    assert!(!s.should_shutdown(&p));
    s.charge = pct(19.0);
    assert!(s.should_shutdown(&p));
    s.status = Some("OL".to_string());
    assert!(!s.should_shutdown(&p));
    s.status = Some("OL LB".to_string());
    s.charge = None;
    assert!(s.should_shutdown(&p));
    let lwt = UpsState { status: None, charge: None, lwt_offline: true };
    assert!(lwt.should_shutdown(&p));
}

#[test]
fn subscriber_triggers_once() {
    let p = plan();
    let mut latch = TriggerLatch::new();
    let mut s = UpsState::new();
    s.record(Incoming::Status("OB".to_string()), None);
    assert!(!maybe_trigger(&s, &p, &mut latch));
    s.record(Incoming::Charge("10".to_string()), pct(10.0));
    assert!(maybe_trigger(&s, &p, &mut latch));
    assert!(!maybe_trigger(&s, &p, &mut latch));
    s.record(Incoming::LwtOffline, None);
    assert!(!maybe_trigger(&s, &p, &mut latch));
}

#[test]
fn reconnect_timeout_zero_disables() {
    let d = DaemonConfig { poll_interval_secs: 10, mqtt_reconnect_timeout_secs: 0 };
    assert_eq!(reconnect_timeout(&d), None);
    let d = DaemonConfig { poll_interval_secs: 10, mqtt_reconnect_timeout_secs: 60 };
    assert_eq!(reconnect_timeout(&d), Some(60));
}

const SEC: u64 = 1_000_000_000;

#[test]
fn broker_silence_beyond_timeout_triggers_once() {
    let mut m = LinkMonitor::new();
    let mut latch = TriggerLatch::new();
    // Never connected: measured from the daemon's start.
    assert!(!m.check(60 * SEC, Some(60), &mut latch));
    assert!(m.check(60 * SEC + 1, Some(60), &mut latch));
    assert!(latch.fired);
    assert!(!m.check(120 * SEC, Some(60), &mut latch));

    let mut latch = TriggerLatch::new();
    m.record_contact(100 * SEC);
    assert_eq!(m.elapsed(130 * SEC), 30 * SEC);
    assert!(!m.check(160 * SEC, Some(60), &mut latch));
    assert!(m.check(161 * SEC, Some(60), &mut latch));
}

#[test]
fn disabled_timeout_never_triggers() {
    let m = LinkMonitor::new();
    let mut latch = TriggerLatch::new();
    assert!(!m.check(u64::MAX, None, &mut latch));
    assert!(!latch.fired);
}

#[test]
fn huge_timeout_does_not_overflow() {
    let m = LinkMonitor::new();
    let mut latch = TriggerLatch::new();
    assert!(!m.check(u64::MAX, Some(u64::MAX), &mut latch));
}

#[test]
fn clock_before_last_contact_counts_as_no_time() {
    let mut m = LinkMonitor::new();
    m.record_contact(50 * SEC);
    assert_eq!(m.elapsed(10 * SEC), 0);
}

#[test]
fn timeout_and_message_share_one_latch() {
    let p = plan();
    let mut latch = TriggerLatch::new();
    let m = LinkMonitor::new();
    assert!(m.check(61 * SEC, Some(60), &mut latch));
    let s = UpsState { status: Some("OB LB".to_string()), charge: None, lwt_offline: false };
    assert!(!maybe_trigger(&s, &p, &mut latch));
}

#[test]
fn any_packet_from_the_broker_counts_as_contact() {
    let mut m = LinkMonitor::new();
    m.on_event(BrokerEvent::Sent, 5 * SEC);
    assert_eq!(m.last_contact, None);
    m.on_event(BrokerEvent::Failed, 6 * SEC);
    assert_eq!(m.last_contact, None);
    m.on_event(BrokerEvent::Received, 7 * SEC);
    assert_eq!(m.last_contact, Some(7 * SEC));
    m.on_event(BrokerEvent::Failed, 9 * SEC);
    assert_eq!(m.last_contact, Some(7 * SEC));
}
