use mqnutd::percent::Percent;

fn pct(v: f32) -> Percent {
    Percent::from_bits(v.to_bits())
}

fn samples() -> Vec<f32> {
    vec![
        0.0,
        -0.0,
        1.0,
        -1.0,
        19.9,
        20.0,
        20.000002,
        75.5,
        100.0,
        f32::MIN_POSITIVE,
        -f32::MIN_POSITIVE,
        1.0e-45,
        -1.0e-45,
        f32::MAX,
        f32::MIN,
        f32::INFINITY,
        f32::NEG_INFINITY,
        f32::NAN,
        -f32::NAN,
        f32::from_bits(0x7fc0_0001),
        f32::from_bits(0xff80_0001),
    ]
}

#[test]
fn is_below_matches_f32_less_than() {
    for a in samples() {
        for b in samples() {
            assert_eq!(pct(a).is_below(&pct(b)), a < b, "{} < {}", a, b);
        }
    }
}

#[test]
fn is_below_on_every_ten_thousandth_bit_pattern() {
    let probes = [0u32, 0x41a0_0000, 0x8000_0000, 0xc1a0_0000, 0x7f80_0000, 0x7fc0_0000];
    let mut bits: u32 = 0;
    loop {
        let a = f32::from_bits(bits);
        for p in probes {
            let b = f32::from_bits(p);
            assert_eq!(Percent::from_bits(bits).is_below(&Percent::from_bits(p)), a < b);
            assert_eq!(Percent::from_bits(p).is_below(&Percent::from_bits(bits)), b < a);
        }
        match bits.checked_add(10_007) {
            Some(next) => bits = next,
            None => break,
        }
    }
}

#[test]
fn bits_round_trip() {
    let p = pct(42.5);
    assert_eq!(p.to_bits(), 42.5f32.to_bits());
    assert_eq!(f32::from_bits(p.bits), 42.5);
}
