//! The daemon's configuration and its defaults.
use crate::percent::Percent;
use vstd::prelude::*;

verus! {

broadcast use vstd::string::group_string_axioms;

/// Daemon operating mode.
#[derive(Clone, Copy, Debug, PartialEq, Eq, Structural)]
pub enum Mode {
    /// Read NUT status and publish it to MQTT.
    Publisher,
    /// Subscribe to MQTT status and execute a plan when triggered.
    Subscriber,
}

/// NUT server connection settings (required in publisher mode).
#[derive(Clone, Debug)]
pub struct NutConfig {
    /// Hostname or IP address of the NUT server (`upsd`).
    pub host: String,
    /// TCP port of the NUT server.
    pub port: u16,
    /// UPS device name as configured in `ups.conf`.
    pub ups_name: String,
    /// Optional NUT username.
    pub username: Option<String>,
    /// Optional NUT password.
    pub password: Option<String>,
}

/// MQTT broker connection settings.
#[derive(Clone, Debug)]
pub struct MqttConfig {
    /// Hostname or IP address of the MQTT broker.
    pub host: String,
    /// MQTT broker port.
    pub port: u16,
    /// MQTT client identifier (unique per broker).
    pub client_id: String,
    /// Optional MQTT username.
    pub username: Option<String>,
    /// Optional MQTT password.
    pub password: Option<String>,
    /// MQTT keep-alive interval in seconds.
    pub keepalive_secs: u64,
}

/// MQTT topic configuration.
#[derive(Clone, Debug)]
pub struct TopicsConfig {
    /// Topic of the UPS status string (e.g. `"OL"`, `"OB"`, `"LB OB"`).
    pub status: String,
    /// Topic of the battery charge percentage (e.g. `"75.5"`).
    pub charge: String,
    /// Last-will topic: `"offline"` there means the publisher vanished.
    pub lwt: String,
}

/// The plan that drives the shutdown decision.
#[derive(Clone, Debug)]
pub struct PlanConfig {
    /// Shut down when the charge drops below this value while on battery.
    pub charge_threshold: Percent,
    /// Shut down at once when the status holds any of these tokens.
    pub trigger_statuses: Vec<String>,
}

/// How to perform the shutdown.
#[derive(Clone, Debug)]
pub enum ExecutorConfig {
    /// `systemctl poweroff`.
    Systemd,
    /// An arbitrary shell command, passed to `sh -c`.
    Command { command: String },
}

impl Default for ExecutorConfig {
    fn default() -> (r: Self)
        ensures
            r is Systemd,
    {
        ExecutorConfig::Systemd
    }
}

/// Runtime daemon settings.
#[derive(Clone, Copy, Debug, PartialEq, Eq, Structural)]
pub struct DaemonConfig {
    /// How often to poll NUT (publisher) or evaluate state (subscriber), in seconds.
    pub poll_interval_secs: u64,
    /// Subscriber: trigger the plan if the broker stays unreachable this many seconds;
    /// `0` disables the check.
    pub mqtt_reconnect_timeout_secs: u64,
}

/// Top-level daemon configuration.
#[derive(Clone, Debug)]
pub struct Config {
    pub mode: Mode,
    /// NUT server settings, required in publisher mode.
    pub nut: Option<NutConfig>,
    pub mqtt: MqttConfig,
    pub topics: TopicsConfig,
    pub plan: PlanConfig,
    pub executor: ExecutorConfig,
    pub daemon: DaemonConfig,
}

/// The bit pattern of the `f32` value 20.0.
pub const TWENTY_PERCENT_BITS: u32 = 0x41a0_0000;

/// Default NUT port.
pub fn default_nut_port() -> (port: u16)
    ensures
        port == 3493,
{
    3493
}

/// Default MQTT port.
pub fn default_mqtt_port() -> (port: u16)
    ensures
        port == 1883,
{
    1883
}

/// Default MQTT keep-alive, in seconds.
pub fn default_keepalive() -> (secs: u64)
    ensures
        secs == 30,
{
    30
}

/// Default charge threshold: 20 %.
pub fn default_charge_threshold() -> (threshold: Percent)
    ensures
        threshold.bits == TWENTY_PERCENT_BITS,
{
    Percent::from_bits(TWENTY_PERCENT_BITS)
}

/// Default trigger statuses: only `LB` (low battery).
pub fn default_trigger_statuses() -> (statuses: Vec<String>)
    ensures
        statuses@.len() == 1,
        statuses@[0]@ == "LB"@,
{
    let mut statuses: Vec<String> = Vec::new();
    statuses.push("LB".to_string());
    statuses
}

/// Default poll interval, in seconds.
pub fn default_poll_interval() -> (secs: u64)
    ensures
        secs == 10,
{
    10
}

/// Default broker-unreachable timeout, in seconds.
pub fn default_reconnect_timeout() -> (secs: u64)
    ensures
        secs == 60,
{
    60
}

/// Default daemon settings: each field at its own default.
pub fn default_daemon() -> (daemon: DaemonConfig)
    ensures
        daemon.poll_interval_secs == 10,
        daemon.mqtt_reconnect_timeout_secs == 60,
{
    DaemonConfig {
        poll_interval_secs: default_poll_interval(),
        mqtt_reconnect_timeout_secs: default_reconnect_timeout(),
    }
}

} // verus!
