//! What the daemon says and listens to over MQTT, and the client options it connects with.
use crate::config::{MqttConfig, TopicsConfig};
use crate::nut::UpsStatus;
use vstd::prelude::*;

verus! {

broadcast use vstd::string::group_string_axioms;

/// `rumqttc::MqttOptions`, the MQTT client's connection options.
#[verifier::external_type_specification]
#[verifier::external_body]
pub struct ExMqttOptions(rumqttc::MqttOptions);

/// `rumqttc::LastWill`, the message the broker sends when the client vanishes.
#[verifier::external_type_specification]
#[verifier::external_body]
pub struct ExLastWill(rumqttc::LastWill);

/// MQTT delivery guarantee.
#[derive(Clone, Copy, Debug, PartialEq, Eq, Structural)]
pub enum Qos {
    AtMostOnce,
    AtLeastOnce,
    ExactlyOnce,
}

/// A message to publish.
#[derive(Clone, Debug)]
pub struct Publication {
    pub topic: String,
    pub payload: String,
    pub qos: Qos,
    pub retain: bool,
}

/// The publication goes to `topic` with `payload`, at `qos`, retained or not.
pub open spec fn publication_is(
    p: Publication,
    topic: Seq<char>,
    payload: Seq<char>,
    qos: Qos,
    retain: bool,
) -> bool {
    &&& p.topic@ == topic
    &&& p.payload@ == payload
    &&& p.qos == qos
    &&& p.retain == retain
}

/// The payload of the last will.
pub open spec fn offline_text() -> Seq<char> {
    seq!['o', 'f', 'f', 'l', 'i', 'n', 'e']
}

/// The payload that announces the publisher.
pub open spec fn online_text() -> Seq<char> {
    seq!['o', 'n', 'l', 'i', 'n', 'e']
}

/// The last will of the publisher: `"offline"` on the LWT topic, at least once, retained.
pub fn last_will(topics: &TopicsConfig) -> (p: Publication)
    ensures
        publication_is(p, topics.lwt@, offline_text(), Qos::AtLeastOnce, true),
{
    let payload = "offline".to_string();
    proof {
        reveal_strlit("offline");
    }
    let p = Publication { topic: topics.lwt.clone(), payload, qos: Qos::AtLeastOnce, retain: true };
    assert(p.payload@ =~= offline_text());
    p
}

/// The publisher's announcement that it is up: `"online"` on the LWT topic, at least
/// once, retained.
pub fn online_announcement(topics: &TopicsConfig) -> (p: Publication)
    ensures
        publication_is(p, topics.lwt@, online_text(), Qos::AtLeastOnce, true),
{
    let payload = "online".to_string();
    proof {
        reveal_strlit("online");
    }
    let p = Publication { topic: topics.lwt.clone(), payload, qos: Qos::AtLeastOnce, retain: true };
    assert(p.payload@ =~= online_text());
    p
}

/// The UPS status string of a reading, on the status topic, at least once, not retained.
pub fn status_publication(topics: &TopicsConfig, reading: &UpsStatus) -> (p: Publication)
    ensures
        publication_is(p, topics.status@, reading.status@, Qos::AtLeastOnce, false),
{
    Publication {
        topic: topics.status.clone(),
        payload: reading.status.clone(),
        qos: Qos::AtLeastOnce,
        retain: false,
    }
}

/// The battery charge, as formatted text, on the charge topic, at least once, not retained.
pub fn charge_publication(topics: &TopicsConfig, charge_text: String) -> (p: Publication)
    ensures
        publication_is(p, topics.charge@, charge_text@, Qos::AtLeastOnce, false),
{
    Publication {
        topic: topics.charge.clone(),
        payload: charge_text,
        qos: Qos::AtLeastOnce,
        retain: false,
    }
}

/// The subscriber's subscriptions: status, charge and LWT topics, in that order, each
/// at least once.
pub fn subscriptions(topics: &TopicsConfig) -> (subs: Vec<(String, Qos)>)
    ensures
        subs@.len() == 3,
        subs@[0].0@ == topics.status@,
        subs@[1].0@ == topics.charge@,
        subs@[2].0@ == topics.lwt@,
        forall|k: int| 0 <= k < 3 ==> (#[trigger] subs@[k]).1 == Qos::AtLeastOnce,
{
    let mut subs: Vec<(String, Qos)> = Vec::new();
    subs.push((topics.status.clone(), Qos::AtLeastOnce));
    subs.push((topics.charge.clone(), Qos::AtLeastOnce));
    subs.push((topics.lwt.clone(), Qos::AtLeastOnce));
    subs
}

/// The broker login: only when both a username and a password are configured.
pub fn mqtt_credentials(cfg: &MqttConfig) -> (login: Option<(String, String)>)
    ensures
        login is Some <==> (cfg.username is Some && cfg.password is Some),
        login matches Some((user, pass)) ==> user@ == cfg.username->0@ && pass@
            == cfg.password->0@,
{
    match (&cfg.username, &cfg.password) {
        (Some(user), Some(pass)) => Some((user.clone(), pass.clone())),
        _ => None,
    }
}

/// What `rumqttc::MqttOptions::new` returns for a client id, broker host and port.
pub uninterp spec fn new_mqtt_options(client_id: Seq<char>, host: Seq<char>, port: u16) -> rumqttc::MqttOptions;

/// What `rumqttc::MqttOptions::set_keep_alive` leaves of options given a keep-alive of
/// `secs` seconds.
pub uninterp spec fn mqtt_options_with_keep_alive(opts: rumqttc::MqttOptions, secs: u64) -> rumqttc::MqttOptions;

/// What `rumqttc::MqttOptions::set_credentials` leaves of options given a username and
/// a password.
pub uninterp spec fn mqtt_options_with_credentials(
    opts: rumqttc::MqttOptions,
    user: Seq<char>,
    pass: Seq<char>,
) -> rumqttc::MqttOptions;

/// What `rumqttc::LastWill::new` returns for a topic, payload text, delivery guarantee
/// and retain flag.
pub uninterp spec fn new_last_will(topic: Seq<char>, payload: Seq<char>, qos: Qos, retain: bool) -> rumqttc::LastWill;

/// What `rumqttc::MqttOptions::set_last_will` leaves of options given a last will.
pub uninterp spec fn mqtt_options_with_last_will(
    opts: rumqttc::MqttOptions,
    will: rumqttc::LastWill,
) -> rumqttc::MqttOptions;

/// Calls `rumqttc::MqttOptions::new` with the client id, broker host and port; the
/// result depends on these alone.
#[verifier::external_body]
fn options_new(client_id: &String, host: &String, port: u16) -> (opts: rumqttc::MqttOptions)
    ensures
        opts == new_mqtt_options(client_id@, host@, port),
{
    rumqttc::MqttOptions::new(client_id.clone(), host.clone(), port)
}

/// Calls `rumqttc::MqttOptions::set_keep_alive` with a whole number of seconds (which
/// its assertion on sub-second durations always accepts); the new options depend on
/// the old ones and the seconds alone.
#[verifier::external_body]
fn options_set_keep_alive(opts: &mut rumqttc::MqttOptions, secs: u64)
    ensures
        *final(opts) == mqtt_options_with_keep_alive(*old(opts), secs),
{
    opts.set_keep_alive(std::time::Duration::from_secs(secs));
}

/// Calls `rumqttc::MqttOptions::set_credentials`; the new options depend on the old
/// ones, the username and the password alone.
#[verifier::external_body]
fn options_set_credentials(opts: &mut rumqttc::MqttOptions, user: String, pass: String)
    ensures
        *final(opts) == mqtt_options_with_credentials(*old(opts), user@, pass@),
{
    opts.set_credentials(user, pass);
}

/// Calls `rumqttc::LastWill::new` with the publication's topic, payload bytes, delivery
/// guarantee and retain flag; the result depends on these alone.
#[verifier::external_body]
fn last_will_new(will: &Publication) -> (lw: rumqttc::LastWill)
    ensures
        lw == new_last_will(will.topic@, will.payload@, will.qos, will.retain),
{
    let qos = match will.qos {
        Qos::AtMostOnce => rumqttc::QoS::AtMostOnce,
        Qos::AtLeastOnce => rumqttc::QoS::AtLeastOnce,
        Qos::ExactlyOnce => rumqttc::QoS::ExactlyOnce,
    };
    rumqttc::LastWill::new(will.topic.clone(), will.payload.clone().into_bytes(), qos, will.retain)
}

/// Calls `rumqttc::MqttOptions::set_last_will`; the new options depend on the old ones
/// and the last will alone.
#[verifier::external_body]
fn options_set_last_will(opts: &mut rumqttc::MqttOptions, will: rumqttc::LastWill)
    ensures
        *final(opts) == mqtt_options_with_last_will(*old(opts), will),
{
    opts.set_last_will(will);
}

/// The options built for a broker configuration and an optional last will: new options
/// for the client id, host and port; the configured keep-alive; the login when both a
/// username and a password are configured; the last will when there is one.
pub open spec fn configured_options(cfg: MqttConfig, will: Option<Publication>) -> rumqttc::MqttOptions {
    let base = mqtt_options_with_keep_alive(
        new_mqtt_options(cfg.client_id@, cfg.host@, cfg.port),
        cfg.keepalive_secs,
    );
    let with_login = match (cfg.username, cfg.password) {
        (Some(user), Some(pass)) => mqtt_options_with_credentials(base, user@, pass@),
        _ => base,
    };
    match will {
        Some(w) => mqtt_options_with_last_will(
            with_login,
            new_last_will(w.topic@, w.payload@, w.qos, w.retain),
        ),
        None => with_login,
    }
}

/// The MQTT client options for a broker configuration: client id, host, port and
/// keep-alive from the configuration, the login of `mqtt_credentials` when there is
/// one, and the given last will when there is one.
pub fn mqtt_options(cfg: &MqttConfig, will: Option<&Publication>) -> (opts: rumqttc::MqttOptions)
    ensures
        opts == configured_options(
            *cfg,
            match will {
                Some(w) => Some(*w),
                None => None,
            },
        ),
        opts == (match will {
            Some(w) => mqtt_options_with_last_will(
                configured_options(*cfg, None),
                new_last_will(w.topic@, w.payload@, w.qos, w.retain),
            ),
            None => configured_options(*cfg, None),
        }),
        configured_options(*cfg, None) == (match mqtt_credentials_of(*cfg) {
            Some((user, pass)) => mqtt_options_with_credentials(
                mqtt_options_with_keep_alive(
                    new_mqtt_options(cfg.client_id@, cfg.host@, cfg.port),
                    cfg.keepalive_secs,
                ),
                user,
                pass,
            ),
            None => mqtt_options_with_keep_alive(
                new_mqtt_options(cfg.client_id@, cfg.host@, cfg.port),
                cfg.keepalive_secs,
            ),
        }),
{
    proof {
        lemma_last_will_always_set(*cfg, will);
    }
    let mut opts = options_new(&cfg.client_id, &cfg.host, cfg.port);
    options_set_keep_alive(&mut opts, cfg.keepalive_secs);
    match mqtt_credentials(cfg) {
        Some((user, pass)) => options_set_credentials(&mut opts, user, pass),
        None => {},
    }
    match will {
        Some(w) => {
            let lw = last_will_new(w);
            options_set_last_will(&mut opts, lw);
        },
        None => {},
    }
    opts
}

/// The broker login of a configuration as text: both a username and a password, or none.
pub open spec fn mqtt_credentials_of(cfg: MqttConfig) -> Option<(Seq<char>, Seq<char>)> {
    if cfg.username is Some && cfg.password is Some {
        Some((cfg.username->0@, cfg.password->0@))
    } else {
        None
    }
}

/// For every broker configuration and last will: the options carry the last will, set
/// last and whether or not a login is configured, on top of the options built without
/// one; and those carry the login exactly when both a username and a password are
/// configured.
pub proof fn lemma_last_will_always_set(cfg: MqttConfig, will: Option<&Publication>)
    ensures
        configured_options(
            cfg,
            match will {
                Some(w) => Some(*w),
                None => None,
            },
        ) == (match will {
            Some(w) => mqtt_options_with_last_will(
                configured_options(cfg, None),
                new_last_will(w.topic@, w.payload@, w.qos, w.retain),
            ),
            None => configured_options(cfg, None),
        }),
        configured_options(cfg, None) == (match mqtt_credentials_of(cfg) {
            Some((user, pass)) => mqtt_options_with_credentials(
                mqtt_options_with_keep_alive(
                    new_mqtt_options(cfg.client_id@, cfg.host@, cfg.port),
                    cfg.keepalive_secs,
                ),
                user,
                pass,
            ),
            None => mqtt_options_with_keep_alive(
                new_mqtt_options(cfg.client_id@, cfg.host@, cfg.port),
                cfg.keepalive_secs,
            ),
        }),
{
}

} // verus!
