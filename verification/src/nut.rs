//! UPS readings taken from a NUT server and what they say.
use crate::config::NutConfig;
use crate::percent::{in_percent_range, Percent};
use crate::text::{is_token_of, whitespace_tokens};
use vstd::prelude::*;

verus! {

broadcast use vstd::string::group_string_axioms;

/// `rups::Auth`, the NUT client's login credentials.
#[verifier::external_type_specification]
#[verifier::external_body]
pub struct ExNutAuth(rups::Auth);

/// Live UPS readings fetched from a NUT server.
#[derive(Clone, Debug)]
pub struct UpsStatus {
    /// Raw NUT status string (space-separated tokens, e.g. `"OL"`, `"OB LB"`).
    pub status: String,
    /// Battery charge as a percentage (`0.0`–`100.0`).
    pub charge: Percent,
}

/// Some token of `status` is one of `triggers`.
pub open spec fn has_trigger_token(status: Seq<char>, triggers: Seq<String>) -> bool {
    exists|j: int| 0 <= j < triggers.len() && is_token_of(status, #[trigger] triggers[j]@)
}

/// The NUT status token for "on battery".
pub open spec fn on_battery_token() -> Seq<char> {
    seq!['O', 'B']
}

/// The bit pattern of the `f32` value 0.0.
pub const ZERO_PERCENT_BITS: u32 = 0;

/// `text` (a whole token) equals one of the whitespace tokens of `s`.
fn is_one_of(tokens: &Vec<String>, text: &String, ghost_s: Ghost<Seq<char>>) -> (r: bool)
    requires
        forall|k: int| 0 <= k < tokens@.len() ==> is_token_of(ghost_s@, #[trigger] tokens@[k]@),
        forall|t: Seq<char>|
            #[trigger] is_token_of(ghost_s@, t) ==> exists|k: int|
                0 <= k < tokens@.len() && #[trigger] tokens@[k]@ == t,
    ensures
        r == is_token_of(ghost_s@, text@),
{
    let mut k: usize = 0;
    while k < tokens.len()
        invariant
            k <= tokens@.len(),
            forall|m: int| 0 <= m < tokens@.len() ==> is_token_of(ghost_s@, #[trigger] tokens@[m]@),
            forall|m: int| 0 <= m < k ==> tokens@[m]@ != text@,
        decreases tokens@.len() - k,
    {
        if tokens[k] == *text {
            assert(is_token_of(ghost_s@, tokens@[k as int]@));
            return true;
        }
        k += 1;
    }
    proof {
        if is_token_of(ghost_s@, text@) {
            let m = choose|m: int| 0 <= m < tokens@.len() && #[trigger] tokens@[m]@ == text@;
            assert(tokens@[m]@ == text@);
        }
    }
    false
}

impl UpsStatus {
    /// The reading made of a status string and the charge as parsed. A charge that did
    /// not parse, or that is no percentage (NaN, below 0.0 or above 100.0), counts as
    /// 0 %, the safe side; so the charge is always from 0.0 to 100.0.
    pub fn from_reading(status: String, parsed_charge: Option<Percent>) -> (r: UpsStatus)
        ensures
            r.status@ == status@,
            r.charge == (match parsed_charge {
                Some(c) => if in_percent_range(c.bits) {
                    c
                } else {
                    Percent { bits: ZERO_PERCENT_BITS }
                },
                None => Percent { bits: ZERO_PERCENT_BITS },
            }),
            in_percent_range(r.charge.bits),
    {
        let charge = match parsed_charge {
            Some(c) => if c.is_in_range() {
                c
            } else {
                Percent::from_bits(ZERO_PERCENT_BITS)
            },
            None => Percent::from_bits(ZERO_PERCENT_BITS),
        };
        UpsStatus { status, charge }
    }

    /// Whether the UPS runs on battery: the status holds the token `OB`.
    pub fn is_on_battery(&self) -> (r: bool)
        ensures
            r == is_token_of(self.status@, on_battery_token()),
    {
        text_on_battery(&self.status)
    }

    /// Whether the status holds any of the given trigger tokens.
    pub fn has_trigger(&self, trigger_statuses: &[String]) -> (r: bool)
        ensures
            r == has_trigger_token(self.status@, trigger_statuses@),
    {
        text_has_trigger(&self.status, trigger_statuses)
    }
}

/// Whether the status text holds the token `OB`.
pub(crate) fn text_on_battery(status: &String) -> (r: bool)
    ensures
        r == is_token_of(status@, on_battery_token()),
{
    let tokens = whitespace_tokens(status.as_str());
    let ob = "OB".to_string();
    proof {
        reveal_strlit("OB");
        assert(ob@ =~= on_battery_token());
    }
    is_one_of(&tokens, &ob, Ghost(status@))
}

/// Whether the status text holds any of the given trigger tokens.
pub(crate) fn text_has_trigger(status: &String, trigger_statuses: &[String]) -> (r: bool)
    ensures
        r == has_trigger_token(status@, trigger_statuses@),
{
    let tokens = whitespace_tokens(status.as_str());
    let mut j: usize = 0;
    while j < trigger_statuses.len()
        invariant
            j <= trigger_statuses@.len(),
            forall|k: int| 0 <= k < tokens@.len() ==> is_token_of(status@, #[trigger] tokens@[k]@),
            forall|t: Seq<char>|
                #[trigger] is_token_of(status@, t) ==> exists|k: int|
                    0 <= k < tokens@.len() && #[trigger] tokens@[k]@ == t,
            forall|m: int| 0 <= m < j ==> !is_token_of(status@, #[trigger] trigger_statuses@[m]@),
        decreases trigger_statuses@.len() - j,
    {
        if is_one_of(&tokens, &trigger_statuses[j], Ghost(status@)) {
            return true;
        }
        j += 1;
    }
    false
}

/// The NUT login to use: the username with the optional password, when a username is
/// configured; none otherwise (a password alone is not used).
pub fn nut_login(cfg: &NutConfig) -> (login: Option<(String, Option<String>)>)
    ensures
        login is Some <==> cfg.username is Some,
        login matches Some((user, pass)) ==> user@ == cfg.username->0@ && (match cfg.password {
            Some(p) => pass matches Some(q) && q@ == p@,
            None => pass is None,
        }),
{
    match &cfg.username {
        Some(user) => {
            let pass = match &cfg.password {
                Some(p) => Some(p.clone()),
                None => None,
            };
            Some((user.clone(), pass))
        },
        None => None,
    }
}

/// What `rups::Auth::new` returns for a username and an optional password.
pub uninterp spec fn new_nut_auth(username: Seq<char>, password: Option<Seq<char>>) -> rups::Auth;

/// The text of an optional string.
pub open spec fn opt_text(s: Option<String>) -> Option<Seq<char>> {
    match s {
        Some(t) => Some(t@),
        None => None,
    }
}

/// Calls `rups::Auth::new` with a username and an optional password; the result depends
/// on these alone.
#[verifier::external_body]
fn auth_new(username: String, password: Option<String>) -> (auth: rups::Auth)
    ensures
        auth == new_nut_auth(username@, opt_text(password)),
{
    rups::Auth::new(username, password)
}

/// The NUT client credentials for a server configuration: `rups::Auth::new` of the
/// configured username and optional password when a username is configured; none
/// otherwise, even when a password is.
pub fn nut_auth(cfg: &NutConfig) -> (auth: Option<rups::Auth>)
    ensures
        auth == (match cfg.username {
            Some(u) => Some(new_nut_auth(u@, opt_text(cfg.password))),
            None => None::<rups::Auth>,
        }),
{
    match nut_login(cfg) {
        Some((user, pass)) => Some(auth_new(user, pass)),
        None => None,
    }
}

} // verus!
