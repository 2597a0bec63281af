use mqnutd::config::{
    Config, DaemonConfig, ExecutorConfig, Mode, MqttConfig, NutConfig, PlanConfig, TopicsConfig,
};
use mqnutd::error::Error;
use mqnutd::nut::UpsStatus;
use mqnutd::percent::Percent;
use mqnutd::plan::TriggerLatch;
use mqnutd::publisher::{nut_settings, on_reading, should_shutdown};

fn plan(threshold: f32, triggers: &[&str]) -> PlanConfig {
    PlanConfig {
        charge_threshold: Percent::from_bits(threshold.to_bits()),
        trigger_statuses: triggers.iter().map(|s| s.to_string()).collect(),
    }
}

fn reading(status: &str, charge: f32) -> UpsStatus {
    UpsStatus::from_reading(status.to_string(), Some(Percent::from_bits(charge.to_bits())))
}

fn config(nut: Option<NutConfig>) -> Config {
    Config {
        mode: Mode::Publisher,
        nut,
        mqtt: MqttConfig {
            host: "broker".to_string(),
            port: 1883,
            client_id: "pub".to_string(),
            username: None,
            password: None,
            keepalive_secs: 30,
        },
        topics: TopicsConfig {
            status: "ups/status".to_string(),
            charge: "ups/charge".to_string(),
            lwt: "ups/lwt".to_string(),
        },
        plan: plan(20.0, &["LB"]),
        executor: ExecutorConfig::Systemd,
        daemon: DaemonConfig { poll_interval_secs: 10, mqtt_reconnect_timeout_secs: 60 },
    }
}

#[test]
fn publisher_needs_nut_settings() {
    assert_eq!(nut_settings(&config(None)).unwrap_err(), Error::NutConfigMissing);
    let n = NutConfig {
        host: "ups".to_string(),
        port: 3493,
        ups_name: "myups".to_string(),
        username: None,
        password: None,
    };
    let cfg = config(Some(n));
    assert_eq!(nut_settings(&cfg).unwrap().ups_name, "myups");
}

#[test]
fn trigger_token_shuts_down_at_any_charge() {
    let p = plan(20.0, &["LB"]);
    assert!(should_shutdown(&reading("OB LB", 95.0), &p));
    assert!(should_shutdown(&reading("OL LB", 95.0), &p));
}

#[test]
fn low_charge_on_battery_shuts_down() {
    let p = plan(20.0, &["LB"]);
    assert!(should_shutdown(&reading("OB", 19.9), &p));
    assert!(!should_shutdown(&reading("OB", 20.0), &p));
    assert!(!should_shutdown(&reading("OB", 75.5), &p));
    // On line power a low charge does not matter.
    assert!(!should_shutdown(&reading("OL", 5.0), &p));
    assert!(!should_shutdown(&reading("OL CHRG", 0.0), &p));
}

#[test]
fn unparsed_charge_on_battery_shuts_down() {
    let p = plan(20.0, &[]);
    let r = UpsStatus::from_reading("OB".to_string(), None);
    assert!(should_shutdown(&r, &p));
}

#[test]
fn nan_threshold_never_triggers_on_charge() {
    let p = plan(f32::NAN, &[]);
    assert!(!should_shutdown(&reading("OB", 0.0), &p));
}

#[test]
fn plan_runs_once_per_publisher() {
    let p = plan(20.0, &["LB"]);
    let mut latch = TriggerLatch::new();
    assert!(!on_reading(&reading("OL", 100.0), &p, &mut latch));
    assert!(!latch.fired);
    assert!(on_reading(&reading("OB", 10.0), &p, &mut latch));
    assert!(latch.fired);
    assert!(!on_reading(&reading("OB LB", 5.0), &p, &mut latch));
    assert!(!on_reading(&reading("OL", 100.0), &p, &mut latch));
    assert!(latch.fired);
}
