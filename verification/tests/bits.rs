use rapidquery::bits::{equal_doubles, equal_singles, widen_single};

fn widened(x: f32) -> u64 {
    widen_single(x.to_bits())
}

#[test]
fn widening_keeps_ordinary_numbers() {
    for x in [1.0f32, -1.0, 1.5, 0.1, -123.456, 3.4028235e38, 1.17549435e-38, 16777216.0] {
        assert_eq!(widened(x), (x as f64).to_bits());
    }
    assert_eq!(widen_single(0x3fc0_0000), 0x3ff8_0000_0000_0000);
}

#[test]
fn widening_keeps_zeros_and_infinities() {
    assert_eq!(widened(0.0), 0.0f64.to_bits());
    assert_eq!(widened(-0.0), (-0.0f64).to_bits());
    assert_eq!(widened(f32::INFINITY), f64::INFINITY.to_bits());
    assert_eq!(widened(f32::NEG_INFINITY), f64::NEG_INFINITY.to_bits());
}

#[test]
fn widening_normalizes_subnormal_numbers() {
    assert_eq!(widen_single(1), (f32::from_bits(1) as f64).to_bits());
    assert_eq!(widen_single(0x8000_0001), (f32::from_bits(0x8000_0001) as f64).to_bits());
    assert_eq!(widen_single(0x007f_ffff), (f32::from_bits(0x007f_ffff) as f64).to_bits());
    assert_eq!(widen_single(0x0040_0000), (f32::from_bits(0x0040_0000) as f64).to_bits());
    let mut bits: u32 = 1;
    while bits < 0x0080_0000 {
        assert_eq!(widen_single(bits), (f32::from_bits(bits) as f64).to_bits());
        assert_eq!(widen_single(bits | 1), (f32::from_bits(bits | 1) as f64).to_bits());
        bits <<= 1;
    }
}

#[test]
fn widening_keeps_a_nan_a_nan() {
    let quiet = widen_single(0x7fc0_0000);
    assert_eq!(quiet, 0x7ff8_0000_0000_0000);
    assert!(f64::from_bits(quiet).is_nan());
    let payload = widen_single(0xffc0_0001);
    assert_eq!(payload, 0xfff8_0000_2000_0000);
}

#[test]
fn widening_agrees_with_the_machine_on_a_sweep() {
    let mut bits: u32 = 0;
    loop {
        let x = f32::from_bits(bits);
        if !x.is_nan() {
            assert_eq!(widen_single(bits), (x as f64).to_bits());
        }
        match bits.checked_add(0x0001_2345) {
            Some(next) => bits = next,
            None => break,
        }
    }
}

#[test]
fn doubles_compare_as_the_machine_compares_them() {
    let values = [
        0.0f64,
        -0.0,
        1.0,
        -1.0,
        1.5,
        f64::MIN_POSITIVE,
        f64::from_bits(1),
        f64::from_bits(0x8000_0000_0000_0001),
        f64::MAX,
        f64::INFINITY,
        f64::NEG_INFINITY,
        f64::NAN,
        f64::from_bits(0x7ff0_0000_0000_0001),
        f64::from_bits(0xfff8_0000_0000_0000),
        f64::from_bits(0xffff_ffff_ffff_ffff),
    ];
    for a in values {
        for b in values {
            assert_eq!(equal_doubles(a.to_bits(), b.to_bits()), a == b, "{a:?} and {b:?}");
        }
    }
}

#[test]
fn singles_compare_as_the_machine_compares_them() {
    let values = [
        0.0f32,
        -0.0,
        1.0,
        -1.0,
        0.1,
        f32::MIN_POSITIVE,
        f32::from_bits(1),
        f32::from_bits(0x8000_0001),
        f32::MAX,
        f32::INFINITY,
        f32::NEG_INFINITY,
        f32::NAN,
        f32::from_bits(0x7f80_0001),
        f32::from_bits(0xffc0_0000),
        f32::from_bits(0xffff_ffff),
    ];
    for a in values {
        for b in values {
            assert_eq!(equal_singles(a.to_bits(), b.to_bits()), a == b, "{a:?} and {b:?}");
        }
    }
    let mut bits: u32 = 0;
    loop {
        let x = f32::from_bits(bits);
        assert_eq!(equal_singles(bits, bits), x == x);
        assert_eq!(equal_singles(bits, bits ^ 0x8000_0000), x == -x);
        match bits.checked_add(0x0004_5671) {
            Some(next) => bits = next,
            None => break,
        }
    }
}
