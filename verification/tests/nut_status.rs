use mqnutd::config::NutConfig;
use mqnutd::nut::{nut_auth, nut_login, UpsStatus};
use mqnutd::percent::Percent;

fn status(s: &str) -> UpsStatus {
    UpsStatus::from_reading(s.to_string(), Some(Percent::from_bits(50.0f32.to_bits())))
}

fn strings(v: &[&str]) -> Vec<String> {
    v.iter().map(|s| s.to_string()).collect()
}

#[test]
fn on_battery_needs_the_whole_token() {
    assert!(status("OB").is_on_battery());
    assert!(status("OB LB").is_on_battery());
    assert!(status("LB OB").is_on_battery());
    assert!(status("  OB\t").is_on_battery());
    assert!(status("OL\u{3000}OB").is_on_battery());
    assert!(!status("OL").is_on_battery());
    assert!(!status("OBX").is_on_battery());
    assert!(!status("ob").is_on_battery());
    assert!(!status("").is_on_battery());
    assert!(!status("O B").is_on_battery());
}

#[test]
fn trigger_tokens() {
    let lb = strings(&["LB"]);
    assert!(status("OB LB").has_trigger(&lb));
    assert!(status("LB").has_trigger(&lb));
    assert!(!status("OB").has_trigger(&lb));
    assert!(!status("OBLB").has_trigger(&lb));
    assert!(!status("OB").has_trigger(&[]));
    assert!(status("OL RB").has_trigger(&strings(&["LB", "RB"])));
    assert!(status("OL\nFSD").has_trigger(&strings(&["FSD"])));
    // A trigger that is not a single token never matches.
    assert!(!status("OB LB").has_trigger(&strings(&["OB LB"])));
    assert!(!status("OB").has_trigger(&strings(&[""])));
}

#[test]
fn unparsed_charge_reads_as_zero() {
    let r = UpsStatus::from_reading("OB".to_string(), None);
    assert_eq!(r.charge.bits, 0.0f32.to_bits());
    assert_eq!(r.status, "OB");
    let r = UpsStatus::from_reading("OL".to_string(), Some(Percent::from_bits(99.5f32.to_bits())));
    assert_eq!(f32::from_bits(r.charge.bits), 99.5);
}

fn nut(user: Option<&str>, pass: Option<&str>) -> NutConfig {
    NutConfig {
        host: "ups.local".to_string(),
        port: 3493,
        ups_name: "ups".to_string(),
        username: user.map(|s| s.to_string()),
        password: pass.map(|s| s.to_string()),
    }
}

#[test]
fn nut_login_needs_only_a_username() {
    assert_eq!(nut_login(&nut(Some("u"), Some("p"))), Some(("u".to_string(), Some("p".to_string()))));
    assert_eq!(nut_login(&nut(Some("u"), None)), Some(("u".to_string(), None)));
    assert_eq!(nut_login(&nut(None, Some("p"))), None);
    assert_eq!(nut_login(&nut(None, None)), None);
}

#[test]
fn nut_auth_follows_the_login() {
    let auth = nut_auth(&nut(Some("monuser"), Some("secret")));
    let shown = format!("{:?}", auth.expect("a username gives credentials"));
    assert!(shown.contains("monuser"));
    assert!(shown.contains("redacted"));
    let auth = nut_auth(&nut(Some("monuser"), None));
    assert!(format!("{:?}", auth.unwrap()).contains("None"));
    assert!(nut_auth(&nut(None, Some("secret"))).is_none());
}

#[test]
fn charge_outside_a_percentage_reads_as_zero() {
    for bad in [150.0f32, 100.1, -1.0, f32::NAN, f32::INFINITY, f32::NEG_INFINITY] {
        let r = UpsStatus::from_reading("OB".to_string(), Some(Percent::from_bits(bad.to_bits())));
        assert_eq!(r.charge.bits, 0.0f32.to_bits(), "{bad}");
    }
    for good in [0.0f32, -0.0, 0.5, 42.0, 100.0] {
        let r = UpsStatus::from_reading("OB".to_string(), Some(Percent::from_bits(good.to_bits())));
        assert_eq!(r.charge.bits, good.to_bits(), "{good}");
    }
}

#[test]
fn percent_range_check() {
    assert!(Percent::from_bits(100.0f32.to_bits()).is_in_range());
    assert!(Percent::from_bits((-0.0f32).to_bits()).is_in_range());
    assert!(!Percent::from_bits(100.00001f32.to_bits()).is_in_range());
    assert!(!Percent::from_bits((-0.00001f32).to_bits()).is_in_range());
    assert!(!Percent::from_bits(f32::NAN.to_bits()).is_in_range());
}

#[test]
fn nut_auth_hands_the_password_over() {
    let with = format!("{:?}", nut_auth(&nut(Some("u"), Some("p"))).unwrap());
    let without = format!("{:?}", nut_auth(&nut(Some("u"), None)).unwrap());
    assert!(with.contains("Some"));
    assert!(without.contains("None"));
    assert_ne!(with, without);
}
