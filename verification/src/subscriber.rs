//! The subscriber's decisions: what an MQTT message says, the UPS state it builds up,
//! and when that state, or a broker that has gone silent, warrants a shutdown.
use crate::config::{DaemonConfig, PlanConfig, TopicsConfig};
use crate::mqtt::offline_text;
use crate::nut::{
    has_trigger_token, on_battery_token, text_has_trigger, text_on_battery, UpsStatus,
};
use crate::percent::{f32_less, Percent};
use crate::plan::{
    at_least_as_strict, latch_step, lemma_stricter_plan_keeps_parts, reading_warrants_shutdown,
    TriggerLatch,
};
use crate::text::{
    eq_ascii_case_insensitive, eq_ignore_ascii_case, is_token_of, lemma_trimmed_keeps_tokens, trim,
    trimmed, utf8_text,
};
use vstd::prelude::*;
use vstd::utf8::{
    decode_utf8, encode_utf8, encode_utf8_decode_utf8, encode_utf8_valid_utf8, valid_utf8,
};

verus! {

broadcast use vstd::string::group_string_axioms;

/// The latest UPS state received over MQTT.
#[derive(Clone, Debug)]
pub struct UpsState {
    /// Most recent UPS status string (e.g. `"OB"`).
    pub status: Option<String>,
    /// Most recent battery charge, when it parsed.
    pub charge: Option<Percent>,
    /// Whether the publisher's last will, `"offline"`, has been received.
    pub lwt_offline: bool,
}

/// What an MQTT message on one of the subscribed topics says.
#[derive(Clone, Debug)]
pub enum Incoming {
    /// The payload is not UTF-8; the message is ignored.
    NotUtf8,
    /// A UPS status string (trimmed).
    Status(String),
    /// A battery charge text (trimmed), still to be parsed as a number.
    Charge(String),
    /// The publisher's last will fired.
    LwtOffline,
    /// Nothing that changes the state.
    Other,
}

/// Nanoseconds in a second.
pub const NANOS_PER_SEC: u64 = 1_000_000_000;

impl UpsState {
    /// The state before any message: nothing known, no last will.
    pub fn new() -> (s: UpsState)
        ensures
            s.status is None,
            s.charge is None,
            !s.lwt_offline,
    {
        UpsState { status: None, charge: None, lwt_offline: false }
    }

    /// The state warrants a shutdown: the last will fired; or a status is known and
    /// holds a trigger token, or says on battery while a known charge is below the
    /// threshold.
    pub open spec fn warrants_shutdown(&self, plan: PlanConfig) -> bool {
        if self.lwt_offline {
            true
        } else {
            match self.status {
                None => false,
                Some(s) => {
                    ||| has_trigger_token(s@, plan.trigger_statuses@)
                    ||| is_token_of(s@, on_battery_token()) && (match self.charge {
                        Some(c) => f32_less(c.bits, plan.charge_threshold.bits),
                        None => false,
                    })
                },
            }
        }
    }

    /// Whether the state warrants a shutdown per the plan.
    pub fn should_shutdown(&self, plan: &PlanConfig) -> (r: bool)
        ensures
            r == self.warrants_shutdown(*plan),
            r == (self.lwt_offline || (match self.status {
                Some(s) => has_trigger_token(s@, plan.trigger_statuses@) || (is_token_of(
                    s@,
                    on_battery_token(),
                ) && (match self.charge {
                    Some(c) => f32_less(c.bits, plan.charge_threshold.bits),
                    None => false,
                })),
                None => false,
            })),
    {
        if self.lwt_offline {
            return true;
        }
        let status = match &self.status {
            Some(s) => s,
            None => return false,
        };
        if text_has_trigger(status, plan.trigger_statuses.as_slice()) {
            return true;
        }
        let on_battery = text_on_battery(status);
        let below_threshold = match &self.charge {
            Some(c) => c.is_below(&plan.charge_threshold),
            None => false,
        };
        on_battery && below_threshold
    }

    /// Takes in what a message said; for a charge message, `parsed_charge` is its text
    /// as parsed (`None` when it did not parse). Other fields stay as they were.
    pub fn record(&mut self, incoming: Incoming, parsed_charge: Option<Percent>)
        ensures
            match incoming {
                Incoming::Status(p) => final(self).status == Some(p) && final(self).charge
                    == old(self).charge && final(self).lwt_offline == old(self).lwt_offline,
                Incoming::Charge(_) => final(self).charge == parsed_charge && final(self).status
                    == old(self).status && final(self).lwt_offline == old(self).lwt_offline,
                Incoming::LwtOffline => final(self).lwt_offline && final(self).status == old(
                    self,
                ).status && final(self).charge == old(self).charge,
                _ => *final(self) == *old(self),
            },
    {
        match incoming {
            Incoming::Status(p) => {
                self.status = Some(p);
            },
            Incoming::Charge(_) => {
                self.charge = parsed_charge;
            },
            Incoming::LwtOffline => {
                self.lwt_offline = true;
            },
            _ => {},
        }
    }
}

/// What a message with `topic` and `payload` says, given the subscribed topics. The
/// payload is decoded as UTF-8 and trimmed; the status topic is matched first, then the
/// charge topic, then the LWT topic, where only `offline` (in any ASCII case) counts.
pub fn classify_publish(topics: &TopicsConfig, topic: &String, payload: &[u8]) -> (r: Incoming)
    ensures
        !valid_utf8(payload@) ==> r is NotUtf8,
        valid_utf8(payload@) ==> ({
            let text = trimmed(decode_utf8(payload@));
            if topic@ == topics.status@ {
                r matches Incoming::Status(p) && p@ == text
            } else if topic@ == topics.charge@ {
                r matches Incoming::Charge(p) && p@ == text
            } else if topic@ == topics.lwt@ && eq_ascii_case_insensitive(text, offline_text()) {
                r is LwtOffline
            } else {
                r is Other
            }
        }),
{
    let text = match utf8_text(payload) {
        Some(t) => t,
        None => return Incoming::NotUtf8,
    };
    let text = trim(text.as_str());
    if *topic == topics.status {
        Incoming::Status(text)
    } else if *topic == topics.charge {
        Incoming::Charge(text)
    } else if *topic == topics.lwt && is_offline(&text) {
        Incoming::LwtOffline
    } else {
        Incoming::Other
    }
}

/// The text is `offline` in any ASCII case.
fn is_offline(text: &String) -> (r: bool)
    ensures
        r == eq_ascii_case_insensitive(text@, offline_text()),
{
    let offline = "offline";
    proof {
        reveal_strlit("offline");
        assert(offline@ =~= offline_text());
    }
    eq_ignore_ascii_case(text.as_str(), offline)
}

/// With the state as it now is: whether to run the plan. It runs the first time the
/// state warrants it, and the latch remembers that it did.
pub fn maybe_trigger(state: &UpsState, plan: &PlanConfig, latch: &mut TriggerLatch) -> (run: bool)
    ensures
        (run, final(latch).fired) == latch_step(old(latch).fired, state.warrants_shutdown(*plan)),
{
    let wanted = state.should_shutdown(plan);
    latch.decide(wanted)
}

/// The broker-unreachable timeout in seconds, or none when it is disabled (set to 0).
pub open spec fn timeout_of(daemon: DaemonConfig) -> Option<u64> {
    if daemon.mqtt_reconnect_timeout_secs > 0 {
        Some(daemon.mqtt_reconnect_timeout_secs)
    } else {
        None
    }
}

/// The broker-unreachable timeout of the daemon settings.
pub fn reconnect_timeout(daemon: &DaemonConfig) -> (t: Option<u64>)
    ensures
        t == timeout_of(*daemon),
        daemon.mqtt_reconnect_timeout_secs > 0 ==> t == Some(daemon.mqtt_reconnect_timeout_secs),
        daemon.mqtt_reconnect_timeout_secs == 0 ==> t is None,
{
    if daemon.mqtt_reconnect_timeout_secs > 0 {
        Some(daemon.mqtt_reconnect_timeout_secs)
    } else {
        None
    }
}

/// What the MQTT event loop reports.
#[derive(Clone, Copy, Debug, PartialEq, Eq, Structural)]
pub enum BrokerEvent {
    /// A packet arrived from the broker (a connection acknowledgement, a message, a
    /// ping response, or any other).
    Received,
    /// A packet was sent to the broker.
    Sent,
    /// The connection failed.
    Failed,
}

/// When the broker was last heard from; times are nanoseconds since the daemon started.
#[derive(Clone, Copy, Debug, PartialEq, Eq, Structural)]
pub struct LinkMonitor {
    pub last_contact: Option<u64>,
}

/// Nanoseconds from the last contact (the daemon's start, if there was none) to `now`;
/// zero when `now` is earlier.
pub open spec fn elapsed_since(last_contact: Option<u64>, now: u64) -> int {
    let start: int = match last_contact {
        Some(t) => t as int,
        None => 0,
    };
    if now >= start {
        now - start
    } else {
        0
    }
}

/// The broker counts as lost: a timeout is set and more than that many seconds have
/// passed since the last contact.
pub open spec fn link_lost(last_contact: Option<u64>, now: u64, timeout: Option<u64>) -> bool {
    match timeout {
        Some(secs) => elapsed_since(last_contact, now) > secs * NANOS_PER_SEC,
        None => false,
    }
}

impl LinkMonitor {
    /// A monitor that has not heard from the broker yet.
    pub fn new() -> (m: LinkMonitor)
        ensures
            m.last_contact is None,
    {
        LinkMonitor { last_contact: None }
    }

    /// The broker was heard from at `now` (a connection acknowledgement or a message).
    pub fn record_contact(&mut self, now: u64)
        ensures
            final(self).last_contact == Some(now),
    {
        self.last_contact = Some(now);
    }

    /// Takes in an event of the MQTT event loop at `now`: any packet from the broker
    /// shows it can be reached and counts as contact; sending or failing does not.
    pub fn on_event(&mut self, event: BrokerEvent, now: u64)
        ensures
            final(self).last_contact == (if event is Received {
                Some(now)
            } else {
                old(self).last_contact
            }),
    {
        match event {
            BrokerEvent::Received => self.record_contact(now),
            _ => {},
        }
    }

    /// Nanoseconds since the last contact, or since the daemon's start.
    pub fn elapsed(&self, now: u64) -> (e: u64)
        ensures
            e == elapsed_since(self.last_contact, now),
    {
        let start: u64 = match self.last_contact {
            Some(t) => t,
            None => 0,
        };
        if now >= start {
            now - start
        } else {
            0
        }
    }

    /// The periodic check at `now`: whether to run the plan because the broker has been
    /// unreachable beyond the timeout. It runs only if the latch has not fired yet.
    pub fn check(&self, now: u64, timeout: Option<u64>, latch: &mut TriggerLatch) -> (run: bool)
        ensures
            (run, final(latch).fired) == latch_step(
                old(latch).fired,
                link_lost(self.last_contact, now, timeout),
            ),
    {
        let lost = match timeout {
            Some(secs) => {
                let elapsed = self.elapsed(now);
                (elapsed as u128) > (secs as u128) * (NANOS_PER_SEC as u128)
            },
            None => false,
        };
        latch.decide(lost)
    }
}

/// The subscriber decides as the publisher does: with a known status and charge and no
/// last will, its state warrants a shutdown exactly when the same reading does.
pub proof fn lemma_subscriber_agrees_with_publisher(state: UpsState, plan: PlanConfig)
    requires
        state.status is Some,
        state.charge is Some,
        !state.lwt_offline,
    ensures
        state.warrants_shutdown(plan) == reading_warrants_shutdown(
            state.status->0@,
            state.charge->0.bits,
            plan,
        ),
{
}

/// The publisher's last will alone warrants a shutdown, whatever else is known.
pub proof fn lemma_last_will_forces_shutdown(state: UpsState, plan: PlanConfig)
    requires
        state.lwt_offline,
    ensures
        state.warrants_shutdown(plan),
{
}

/// Before any status arrives, only the last will warrants a shutdown.
pub proof fn lemma_no_status_no_shutdown(state: UpsState, plan: PlanConfig)
    requires
        state.status is None,
    ensures
        state.warrants_shutdown(plan) == state.lwt_offline,
{
}

/// A charge that did not parse never counts as below the threshold: only the status
/// tokens and the last will decide.
pub proof fn lemma_unknown_charge_not_low(state: UpsState, plan: PlanConfig)
    requires
        state.charge is None,
    ensures
        state.warrants_shutdown(plan) == (state.lwt_offline || (state.status matches Some(s)
            && has_trigger_token(s@, plan.trigger_statuses@))),
{
}

/// A timeout of 0 disables the broker check: it never runs the plan.
pub proof fn lemma_zero_timeout_disables(daemon: DaemonConfig, last_contact: Option<u64>, now: u64)
    requires
        daemon.mqtt_reconnect_timeout_secs == 0,
    ensures
        !link_lost(last_contact, now, timeout_of(daemon)),
{
}

/// A broker never reached counts as lost once the timeout has passed since the daemon
/// started.
pub proof fn lemma_never_connected_counts_from_start(now: u64, secs: u64)
    ensures
        link_lost(None, now, Some(secs)) <==> now > secs * NANOS_PER_SEC,
{
}

/// A status that the publisher sends, as the UTF-8 bytes of its text, is valid UTF-8,
/// and once decoded and trimmed holds the same tokens; a subscriber holding it with the
/// same charge and no last will decides as the publisher did on the reading.
pub proof fn lemma_published_status_decides_alike(
    reading: UpsStatus,
    state: UpsState,
    plan: PlanConfig,
)
    requires
        state.status matches Some(s) && s@ == trimmed(decode_utf8(encode_utf8(reading.status@))),
        state.charge == Some(reading.charge),
        !state.lwt_offline,
    ensures
        valid_utf8(encode_utf8(reading.status@)),
        state.warrants_shutdown(plan) == reading_warrants_shutdown(
            reading.status@,
            reading.charge.bits,
            plan,
        ),
{
    let sent = reading.status@;
    encode_utf8_valid_utf8(sent);
    encode_utf8_decode_utf8(sent);
    let received = state.status->0@;
    assert(received == trimmed(sent));
    lemma_trimmed_keeps_tokens(sent, on_battery_token());
    assert forall|j: int| 0 <= j < plan.trigger_statuses@.len() implies is_token_of(
        received,
        #[trigger] plan.trigger_statuses@[j]@,
    ) == is_token_of(sent, plan.trigger_statuses@[j]@) by {
        lemma_trimmed_keeps_tokens(sent, plan.trigger_statuses@[j]@);
    }
    assert(has_trigger_token(received, plan.trigger_statuses@) == has_trigger_token(
        sent,
        plan.trigger_statuses@,
    ));
}

/// A state that warrants a shutdown under a plan warrants one under any plan at least
/// as strict: more trigger statuses or a higher threshold never prevent a shutdown.
pub proof fn lemma_stricter_plan_never_prevents_subscriber_shutdown(
    state: UpsState,
    plan: PlanConfig,
    stricter: PlanConfig,
)
    requires
        at_least_as_strict(stricter, plan),
        state.warrants_shutdown(plan),
    ensures
        state.warrants_shutdown(stricter),
{
    if let Some(s) = state.status {
        let charge = match state.charge {
            Some(c) => c.bits,
            None => 0u32,
        };
        lemma_stricter_plan_keeps_parts(s@, charge, plan, stricter);
    }
}

/// What decides a state, for every state and plan: a shutdown is warranted exactly when
/// the last will fired, or a status is known that holds a trigger token, or holds `OB`
/// while a known charge is below the plan's own threshold (whatever that threshold is).
pub proof fn lemma_state_decision(state: UpsState, plan: PlanConfig)
    ensures
        state.warrants_shutdown(plan) == (state.lwt_offline || (match state.status {
            Some(s) => has_trigger_token(s@, plan.trigger_statuses@) || (is_token_of(
                s@,
                on_battery_token(),
            ) && (match state.charge {
                Some(c) => f32_less(c.bits, plan.charge_threshold.bits),
                None => false,
            })),
            None => false,
        })),
{
}

/// On battery, a known charge below the configured threshold warrants a shutdown, for
/// every threshold.
pub proof fn lemma_low_charge_on_battery_warrants_state(state: UpsState, plan: PlanConfig)
    requires
        state.status matches Some(s) && is_token_of(s@, on_battery_token()),
        state.charge matches Some(c) && f32_less(c.bits, plan.charge_threshold.bits),
    ensures
        state.warrants_shutdown(plan),
{
}

/// Every positive timeout is the broker check's timeout, and the broker counts as lost
/// exactly when more than that many seconds have passed since the last contact.
pub proof fn lemma_positive_timeout_is_kept(daemon: DaemonConfig, last_contact: Option<u64>, now: u64)
    requires
        daemon.mqtt_reconnect_timeout_secs > 0,
    ensures
        timeout_of(daemon) == Some(daemon.mqtt_reconnect_timeout_secs),
        link_lost(last_contact, now, timeout_of(daemon)) <==> elapsed_since(last_contact, now)
            > daemon.mqtt_reconnect_timeout_secs * NANOS_PER_SEC,
{
}

} // verus!
