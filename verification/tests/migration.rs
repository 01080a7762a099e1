use tunnel_preflight::tunnel::migration::{
    default_to_new_protocol, migration_threshold, Binary32, VersionCache, ONE_BITS,
};

fn value(x: f32) -> Binary32 {
    Binary32::from_bits(x.to_bits())
}

fn samples() -> Vec<f32> {
    vec![
        0.0,
        -0.0,
        f32::MIN_POSITIVE,
        -f32::MIN_POSITIVE,
        f32::from_bits(1),
        f32::from_bits(0x8000_0001),
        0.25,
        0.5,
        0.999_999_94,
        1.0,
        1.000_000_1,
        -0.5,
        -1.0,
        2.0,
        1.0e30,
        -1.0e30,
        f32::MAX,
        f32::MIN,
        f32::INFINITY,
        f32::NEG_INFINITY,
        f32::NAN,
        -f32::NAN,
        f32::from_bits(0x7F80_0001),
        f32::from_bits(0xFFFF_FFFF),
    ]
}

#[test]
fn comparison_agrees_with_single_precision_on_every_pair() {
    for a in samples() {
        for b in samples() {
            assert_eq!(value(a).lt(value(b)), a < b, "{:?} < {:?}", a, b);
        }
    }
}

#[test]
fn comparison_agrees_with_single_precision_on_a_sweep() {
    let mut bits: u32 = 0;
    let mut count = 0;
    loop {
        let a = f32::from_bits(bits);
        let b = f32::from_bits(bits.wrapping_mul(2_654_435_761).wrapping_add(12_345));
        assert_eq!(value(a).lt(value(b)), a < b, "{:?} < {:?}", a, b);
        assert_eq!(value(b).lt(value(a)), b < a, "{:?} < {:?}", b, a);
        count += 1;
        match bits.checked_add(0x0003_1415) {
            Some(next) => bits = next,
            None => break,
        }
    }
    assert!(count > 20_000);
}

#[test]
fn one_has_the_bits_of_one() {
    assert_eq!(ONE_BITS, 1.0f32.to_bits());
    assert_eq!(Binary32::one(), value(1.0));
    assert_eq!(Binary32::from_bits(0x3F00_0000), value(0.5));
}

#[test]
fn threshold_is_taken_from_the_cache() {
    let cache = VersionCache { threshold: Some(value(0.3)) };
    assert_eq!(migration_threshold(Some(cache)), value(0.3));
}

#[test]
fn threshold_defaults_to_one_without_a_cache() {
    assert_eq!(migration_threshold(None), value(1.0));
}

#[test]
fn threshold_defaults_to_one_without_the_field() {
    assert_eq!(migration_threshold(Some(VersionCache { threshold: None })), value(1.0));
}

#[test]
fn missing_threshold_prefers_new_protocol_for_every_draw() {
    for draw in [0.0f32, -0.0, f32::MIN_POSITIVE, 0.1, 0.5, 0.999_999_94] {
        assert!(default_to_new_protocol(value(draw), migration_threshold(None)));
        assert!(default_to_new_protocol(
            value(draw),
            migration_threshold(Some(VersionCache { threshold: None }))
        ));
    }
}

#[test]
fn zero_threshold_never_prefers_new_protocol() {
    for threshold in [0.0f32, -0.0] {
        for draw in [0.0f32, -0.0, f32::MIN_POSITIVE, 0.1, 0.5, 0.999_999_94, 1.0, f32::MAX] {
            assert!(!default_to_new_protocol(value(draw), value(threshold)));
        }
    }
}

#[test]
fn draw_below_threshold_prefers_new_protocol() {
    assert!(default_to_new_protocol(value(0.25), value(0.5)));
    assert!(!default_to_new_protocol(value(0.5), value(0.5)));
    assert!(!default_to_new_protocol(value(0.75), value(0.5)));
}

#[test]
fn threshold_that_is_not_a_number_prefers_nothing() {
    assert!(!default_to_new_protocol(value(0.25), value(f32::NAN)));
    assert!(!default_to_new_protocol(value(f32::NAN), value(0.5)));
}
