use rvhwfuzzer::rsoftfloat::f32::F32;
use rvhwfuzzer::rsoftfloat::{Flags, RoundingMode};

#[test]
fn read_normalized() {
    let (exp, mantissa) = F32::from_bits(0x0000_0001).normalized();
    assert_eq!(exp, -149);
    assert_eq!(mantissa, 0x0080_0000);
}

#[test]
fn normalized_normal_number() {
    let (exp, mantissa) = F32::from_bits(1.5f32.to_bits()).normalized();
    assert_eq!(exp, 0);
    assert_eq!(mantissa, 0x00C0_0000);
}

#[test]
fn classification() {
    assert!(F32::from_bits(0x7FC0_0000).is_nan());
    assert!(F32::from_bits(0x7FC0_0000).is_quiet_nan());
    assert!(F32::from_bits(0x7F80_0001).is_signaling_nan());
    assert!(F32::from_bits(0xFF80_0000).is_infinite());
    assert!(F32::from_bits(0x8000_0000).is_zero());
    assert!(F32::from_bits(0x0000_0010).is_subnormal());
    assert!(F32::from_bits(1.0f32.to_bits()).is_normal());
    assert!(F32::from_bits(0x8000_0000).sign());
    assert_eq!(F32::from_bits(1.0f32.to_bits()).exponent(), 127);
    assert_eq!(F32::from_bits(1.5f32.to_bits()).significant(), 0x0040_0000);
    assert_eq!(F32::from_bits(1.5f32.to_bits()).fraction(), 0x00C0_0000);
}

#[test]
fn max_and_min() {
    let one = F32::from_bits(1.0f32.to_bits());
    let two = F32::from_bits(2.0f32.to_bits());
    let minus_two = F32::from_bits((-2.0f32).to_bits());
    assert_eq!(one.max(two).0.to_bits(), two.to_bits());
    assert_eq!(one.min(two).0.to_bits(), one.to_bits());
    assert_eq!(one.max(minus_two).0.to_bits(), one.to_bits());
    assert_eq!(one.min(minus_two).0.to_bits(), minus_two.to_bits());
    let nan = F32::from_bits(0x7F80_0001);
    let (r, flags) = nan.max(one);
    assert_eq!(r.to_bits(), one.to_bits());
    assert!(flags.contains(Flags::invalid()));
}

#[test]
fn eq_and_mul() {
    let a = F32::from_bits(3.0f32.to_bits());
    assert!(a.eq(a).0);
    let (equal, flags) = F32::from_bits(0x7F80_0001).eq(a);
    assert!(!equal);
    assert_eq!(flags.as_u8(), 0b10000);
    let b = F32::from_bits(2.0f32.to_bits());
    assert_eq!(F32::mul(a, b, RoundingMode::TiesToEven).to_bits(), 6.0f32.to_bits());
    let four = F32::from_bits(4.0f32.to_bits());
    let half = F32::from_bits(0.5f32.to_bits());
    assert_eq!(F32::mul(four, half, RoundingMode::TiesToEven).to_bits(), 2.0f32.to_bits());
    let big = F32::from_bits(f32::MAX.to_bits());
    assert_eq!(F32::mul(big, b, RoundingMode::TiesToEven).to_bits(), 0x7F80_0000);
    let zero = F32::from_bits(0);
    let inf = F32::from_bits(0x7F80_0000);
    assert_eq!(F32::mul(zero, inf, RoundingMode::TiesToEven).to_bits(), 0x7FC0_0000);
    assert_eq!(F32::mul(zero, b, RoundingMode::TiesToEven).to_bits(), 0);
}

#[test]
fn flags() {
    let f = Flags::inexact() | Flags::overflow();
    assert_eq!(f.as_u8(), 0b00101);
    assert_eq!(f.as_u16(), 0b00101);
    assert_eq!(f.as_u32(), 0b00101);
    assert!(f.contains(Flags::inexact()));
    assert!(!f.contains(Flags::invalid()));
    assert_eq!(Flags::empty().as_u8(), 0);
}

#[test]
fn mul_rounds_like_ieee() {
    let cases: [(f32, f32); 6] = [
        (1.1, 1.1),
        (3.0, 1.0 / 3.0),
        (f32::MIN_POSITIVE, 0.5),
        (1e30, 1e10),
        (-7.25, 0.1),
        (123456.79, 0.0001234),
    ];
    for (x, y) in cases {
        let product = F32::mul(F32::from_bits(x.to_bits()), F32::from_bits(y.to_bits()), RoundingMode::TiesToEven);
        assert_eq!(product.to_bits(), (x * y).to_bits(), "{x} * {y}");
    }
}
