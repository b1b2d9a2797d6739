use minterpolate::{linear_interpolate, Double, InterpolationPrimitive, Scalar};

fn s(x: f32) -> Scalar {
    Scalar::from_bits(x.to_bits())
}

fn f(x: Scalar) -> f32 {
    f32::from_bits(x.to_bits())
}

fn d(x: f64) -> Double {
    Double::from_bits(x.to_bits())
}

fn g(x: Double) -> f64 {
    f64::from_bits(x.to_bits())
}

fn patterns() -> Vec<u64> {
    let mut all = vec![
        0,
        1 << 63,
        1,
        0x000f_ffff_ffff_ffff,
        0x0010_0000_0000_0000,
        0x3ff0_0000_0000_0000,
        0xbff0_0000_0000_0000,
        0x3fe0_0000_0000_0000,
        0x7fef_ffff_ffff_ffff,
        0xffef_ffff_ffff_ffff,
        0x7ff0_0000_0000_0000,
        0xfff0_0000_0000_0000,
        0x7ff8_0000_0000_0000,
        0x47ef_ffff_e000_0000,
        0x47ef_ffff_f000_0000,
        0x36a0_0000_0000_0000,
        0x3690_0000_0000_0000,
        0x3ff0_0000_1000_0000,
        0x3ff0_0000_3000_0000,
    ];
    let mut state: u64 = 0x1234_5678_9abc_def0;
    for i in 0..300 {
        state = state
            .wrapping_mul(6_364_136_223_846_793_005)
            .wrapping_add(1_442_695_040_888_963_407);
        all.push(state);
        // Doubles in the range of singles, where narrowing rounds.
        all.push((state & 0x800f_ffff_ffff_ffff) | ((0x380 + (i % 0x100)) << 52));
    }
    all
}

fn same_double(expected: f64, got: Double) -> bool {
    if expected.is_nan() {
        g(got).is_nan()
    } else {
        expected.to_bits() == got.to_bits()
    }
}

#[test]
fn double_arithmetic_agrees_with_the_hardware() {
    let all = patterns();
    for a in all.iter().step_by(3) {
        for b in all.iter() {
            let (x, y) = (Double::from_bits(*a), Double::from_bits(*b));
            let (p, q) = (f64::from_bits(*a), f64::from_bits(*b));
            assert!(same_double(p + q, x.plus(y)), "{a:#x} + {b:#x}");
            assert!(same_double(p - q, x.minus(y)), "{a:#x} - {b:#x}");
            assert!(same_double(p * q, x.times(y)), "{a:#x} * {b:#x}");
        }
    }
}

#[test]
fn widening_and_narrowing_agree_with_casts() {
    for a in patterns() {
        let p = f64::from_bits(a);
        let narrow = Double::from_bits(a).narrow();
        if (p as f32).is_nan() {
            assert!(f(narrow).is_nan());
        } else {
            assert_eq!(narrow.to_bits(), (p as f32).to_bits(), "{a:#x}");
        }
        let single = f32::from_bits((a >> 29) as u32);
        let wide = Double::widen(Scalar::from_bits((a >> 29) as u32));
        assert!(same_double(single as f64, wide));
    }
}

#[test]
fn a_double_is_scaled_in_double_precision() {
    assert_eq!(g(d(1.5).add(&d(2.25))), 3.75);
    assert_eq!(g(d(0.1).add(&d(0.2))), 0.1f64 + 0.2f64);
    assert_eq!(g(d(1.5).sub(&d(2.25))), -0.75);
    assert_eq!(g(d(0.1).mul(s(0.3))), 0.1f64 * 0.3f32 as f64);
    assert_eq!(f(d(0.1).dot(&d(0.7))), (0.1f64 * 0.7f64) as f32);
    assert_eq!(f(d(-0.1).magnitude2()), (-0.1f64 * -0.1f64) as f32);
    assert_eq!(f(d(-0.1).magnitude()), -0.1f64 as f32);
    assert_eq!(g(d(-0.1).normalize()), -0.1);
    assert_eq!(d(-0.1).normalize().normalize(), d(-0.1).normalize());
}

#[test]
fn doubles_interpolate_linearly() {
    let input: Vec<Scalar> = [0.0f32, 4.].iter().map(|x| s(*x)).collect();
    let output = vec![d(1.0), d(1.0e-3)];
    let factor = (1.0f32 - 0.) / (4. - 0.);
    assert_eq!(
        linear_interpolate(s(1.), &input, &output, true).map(g),
        Ok(1.0 + (1.0e-3 - 1.0) * factor as f64)
    );
}
