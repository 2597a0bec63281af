use mqnutd::config::{
    default_charge_threshold, default_daemon, default_keepalive, default_mqtt_port,
    default_nut_port, default_poll_interval, default_reconnect_timeout,
    default_trigger_statuses, ExecutorConfig,
};

#[test]
fn ports_and_intervals() {
    assert_eq!(default_nut_port(), 3493);
    assert_eq!(default_mqtt_port(), 1883);
    assert_eq!(default_keepalive(), 30);
    assert_eq!(default_poll_interval(), 10);
    assert_eq!(default_reconnect_timeout(), 60);
}

#[test]
fn charge_threshold_is_twenty_percent() {
    assert_eq!(f32::from_bits(default_charge_threshold().bits), 20.0);
}

#[test]
fn trigger_statuses_is_low_battery() {
    assert_eq!(default_trigger_statuses(), vec!["LB".to_string()]);
}

#[test]
fn daemon_defaults() {
    let d = default_daemon();
    assert_eq!(d.poll_interval_secs, 10);
    assert_eq!(d.mqtt_reconnect_timeout_secs, 60);
}

#[test]
fn executor_defaults_to_systemd() {
    assert!(matches!(ExecutorConfig::default(), ExecutorConfig::Systemd));
}
