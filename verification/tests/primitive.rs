use mint::{Quaternion, Vector3};
use minterpolate::{InterpolationPrimitive, Scalar};

fn s(x: f32) -> Scalar {
    Scalar::from_bits(x.to_bits())
}

fn f(x: Scalar) -> f32 {
    f32::from_bits(x.to_bits())
}

fn arr3(v: [f32; 3]) -> [Scalar; 3] {
    [s(v[0]), s(v[1]), s(v[2])]
}

fn arr4(v: [f32; 4]) -> [Scalar; 4] {
    [s(v[0]), s(v[1]), s(v[2]), s(v[3])]
}

fn floats3(v: [Scalar; 3]) -> [f32; 3] {
    [f(v[0]), f(v[1]), f(v[2])]
}

fn floats4(v: [Scalar; 4]) -> [f32; 4] {
    [f(v[0]), f(v[1]), f(v[2]), f(v[3])]
}

#[test]
fn three_components() {
    let a = [1.5f32, -2., 0.25];
    let b = [0.5f32, 4., -8.];
    assert_eq!(floats3(arr3(a).add(&arr3(b))), [2., 2., -7.75]);
    assert_eq!(floats3(arr3(a).sub(&arr3(b))), [1., -6., 8.25]);
    assert_eq!(floats3(arr3(a).mul(s(-2.))), [-3., 4., -0.5]);
    assert_eq!(f(arr3(a).dot(&arr3(b))), 1.5 * 0.5 + -2. * 4. + 0.25 * -8.);
    assert_eq!(f(arr3(a).magnitude2()), 1.5 * 1.5 + 2. * 2. + 0.25 * 0.25);
    assert_eq!(f(arr3([3., 0., 4.]).magnitude()), 5.);
    assert_eq!(floats3(arr3([3., 0., 4.]).normalize()), [3. * (1. / 5.), 0., 4. * (1. / 5.)]);
    let v = Vector3::from(arr3(a));
    let w = Vector3::from(arr3(b));
    assert_eq!(v.add(&w), Vector3::from(arr3(a).add(&arr3(b))));
    assert_eq!(v.sub(&w), Vector3::from(arr3(a).sub(&arr3(b))));
    assert_eq!(v.mul(s(0.3)), Vector3::from(arr3(a).mul(s(0.3))));
    assert_eq!(v.dot(&w), arr3(a).dot(&arr3(b)));
    assert_eq!(v.magnitude2(), arr3(a).magnitude2());
    assert_eq!(v.magnitude(), arr3(a).magnitude());
    assert_eq!(v.normalize(), Vector3::from(arr3(a).normalize()));
}

#[test]
fn four_components() {
    let a = [1.5f32, -2., 0.25, 3.];
    let b = [0.5f32, 4., -8., 0.1];
    assert_eq!(floats4(arr4(a).add(&arr4(b))), [2., 2., -7.75, 3. + 0.1]);
    assert_eq!(floats4(arr4(a).sub(&arr4(b))), [1., -6., 8.25, 3. - 0.1]);
    assert_eq!(floats4(arr4(a).mul(s(0.5))), [0.75, -1., 0.125, 1.5]);
    assert_eq!(
        f(arr4(a).dot(&arr4(b))),
        1.5 * 0.5 + -2. * 4. + 0.25 * -8. + 3. * 0.1
    );
    assert_eq!(f(arr4([1., 2., 2., 4.]).magnitude()), 5.);
    assert_eq!(
        floats4(arr4([1., 2., 2., 4.]).normalize()),
        [1. * (1. / 5.), 2. * (1. / 5.), 2. * (1. / 5.), 4. * (1. / 5.)]
    );
}

#[test]
fn rotations_keep_the_scalar_part_apart() {
    let a = [1.5f32, -2., 0.25, 3.];
    let b = [0.5f32, 4., -8., 0.1];
    let p = Quaternion::from(arr4(a));
    let q = Quaternion::from(arr4(b));
    assert_eq!(p.s, s(3.));
    let sum: [Scalar; 4] = p.add(&q).into();
    assert_eq!(floats4(sum), [2., 2., -7.75, 3. + 0.1]);
    let difference: [Scalar; 4] = p.sub(&q).into();
    assert_eq!(floats4(difference), [1., -6., 8.25, 3. - 0.1]);
    let scaled: [Scalar; 4] = p.mul(s(0.5)).into();
    assert_eq!(floats4(scaled), [0.75, -1., 0.125, 1.5]);
    assert_eq!(
        f(p.dot(&q)),
        3. * 0.1 + (1.5 * 0.5 + -2. * 4. + 0.25 * -8.)
    );
    assert_eq!(f(p.magnitude2()), 3. * 3. + (1.5 * 1.5 + 2. * 2. + 0.25 * 0.25));
    let unit: [Scalar; 4] = Quaternion::from(arr4([0., 0., 3., 4.])).normalize().into();
    assert_eq!(floats4(unit), [0., 0., 3. * (1. / 5.), 4. * (1. / 5.)]);
}

#[test]
fn a_single_is_its_own_magnitude() {
    assert_eq!(f(s(1.5).add(&s(2.25))), 3.75);
    assert_eq!(f(s(1.5).sub(&s(2.25))), -0.75);
    assert_eq!(f(s(1.5).mul(s(-4.))), -6.);
    assert_eq!(f(s(1.5).dot(&s(-4.))), -6.);
    assert_eq!(f(s(-1.5).magnitude2()), 2.25);
    assert_eq!(f(s(-1.5).magnitude()), -1.5);
    assert_eq!(f(s(-1.5).normalize()), -1.5);
    assert_eq!(f(s(0.1).add(&s(0.2))), 0.1f32 + 0.2f32);
}

#[test]
fn integers_lose_the_fraction_after_scaling() {
    assert_eq!(7u32.mul(s(0.5)), (7u32 as f32 * 0.5) as u32);
    assert_eq!(7u32.mul(s(0.5)), 3);
    assert_eq!(7u32.mul(s(-1.)), 0);
    assert_eq!(7u32.mul(s(1.0e12)), u32::MAX);
    assert_eq!(7u32.mul(s(f32::NAN)), 0);
    assert_eq!((-7i32).mul(s(0.5)), -3);
    assert_eq!(7i32.mul(s(1.0e12)), i32::MAX);
    assert_eq!(7i32.mul(s(-1.0e12)), i32::MIN);
    assert_eq!(1_000_000_007u64.mul(s(3.)), (1_000_000_007u64 as f32 * 3.) as u64);
    assert_eq!(7u64.mul(s(1.0e30)), u64::MAX);
    assert_eq!((-1_000_000_007i64).mul(s(3.)), (-1_000_000_007i64 as f32 * 3.) as i64);
    assert_eq!(7i64.mul(s(-1.0e30)), i64::MIN);
    assert_eq!(9usize.mul(s(0.3)), (9usize as f32 * 0.3) as usize);
    assert_eq!(9usize.mul(s(1.0e30)), usize::MAX);
    assert_eq!((-9isize).mul(s(0.3)), (-9isize as f32 * 0.3) as isize);
    assert_eq!(9isize.mul(s(-1.0e30)), isize::MIN);
    for x in [0u32, 1, 2, 99, 16_777_217, 4_000_000_000, u32::MAX] {
        for k in [0.0f32, 0.3, 0.5, 1., 1.5, 2.75, -0.5] {
            assert_eq!(x.mul(s(k)), (x as f32 * k) as u32, "{x} * {k}");
            assert_eq!((x as i32).mul(s(k)), (x as i32 as f32 * k) as i32, "{x} * {k}");
        }
    }
}

#[test]
fn integers_wrap_around() {
    assert_eq!(3u32.add(&4), 7);
    assert_eq!(u32::MAX.add(&2), 1);
    assert_eq!(3u32.sub(&4), u32::MAX);
    assert_eq!(i32::MAX.add(&1), i32::MIN);
    assert_eq!(i64::MIN.sub(&1), i64::MAX);
    assert_eq!(u64::MAX.add(&1), 0);
    assert_eq!(usize::MAX.add(&1), 0);
    assert_eq!(isize::MIN.sub(&1), isize::MAX);
    assert_eq!(f(70_000u32.dot(&70_000)), 70_000u32.wrapping_mul(70_000) as f32);
    assert_eq!(f(6i32.dot(&-7)), -42.);
    assert_eq!(f(3u64.dot(&5)), 15.);
    assert_eq!(f((-3i64).dot(&5)), -15.);
    assert_eq!(f(3usize.dot(&5)), 15.);
    assert_eq!(f((-3isize).dot(&-5)), 15.);
}

#[test]
fn an_integer_is_its_own_unit_value() {
    assert_eq!(12u32.normalize(), 12);
    assert_eq!(12u32.normalize().normalize(), 12u32.normalize());
    assert_eq!((-12i32).normalize(), -12);
    assert_eq!(12u64.normalize(), 12);
    assert_eq!((-12i64).normalize(), -12);
    assert_eq!(12usize.normalize(), 12);
    assert_eq!((-12isize).normalize(), -12);
    assert_eq!(f(12u32.magnitude()), 12.);
    assert_eq!(f((-12i32).magnitude()), -12.);
    assert_eq!(f(16_777_217u64.magnitude()), 16_777_217u64 as f32);
    assert_eq!(f((-5i64).magnitude()), -5.);
    assert_eq!(f(5usize.magnitude()), 5.);
    assert_eq!(f((-5isize).magnitude()), -5.);
    assert_eq!(f(4u32.magnitude2()), 16.);
    assert_eq!(f((-4i32).magnitude2()), 16.);
    assert_eq!(f(4u64.magnitude2()), 16.);
    assert_eq!(f((-4i64).magnitude2()), 16.);
    assert_eq!(f(4usize.magnitude2()), 16.);
    assert_eq!(f((-4isize).magnitude2()), 16.);
}

#[test]
fn normalizing_a_unit_vector_again_changes_nothing() {
    let once = arr3([3., 0., 4.]).normalize();
    assert_eq!(floats3(once), [0.6, 0., 0.8]);
    assert_eq!(once.normalize(), once);
    let axis = arr4([0., 0., 0., -9.]).normalize();
    assert_eq!(floats4(axis), [0., 0., 0., -1.]);
    assert_eq!(axis.normalize(), axis);
}

#[test]
fn integers_interpolate_linearly() {
    let input: Vec<Scalar> = [0.0f32, 10.].iter().map(|x| s(*x)).collect();
    let output = vec![100i32, 200];
    assert_eq!(minterpolate::linear_interpolate(s(2.5), &input, &output, false), Ok(125));
    assert_eq!(minterpolate::linear_interpolate(s(3.33), &input, &output, true), Ok(133));
    let output = vec![200u32, 100];
    // The difference wraps around before it is scaled.
    let wrapped = 100u32.wrapping_sub(200);
    let expected = 200u32.wrapping_add((wrapped as f32 * 0.25) as u32);
    assert_eq!(
        minterpolate::linear_interpolate(s(2.5), &input, &output, false),
        Ok(expected)
    );
}

#[test]
fn normalizing_twice_stays_within_rounding() {
    for v in [[1.0f32, 1., 1.], [1., 2., 3.], [0.3, 0.4, 0.5], [2., 3., 6.], [-7., 0.5, 0.]] {
        let once = floats3(arr3(v).normalize());
        let twice = floats3(arr3(once).normalize());
        for i in 0..3 {
            assert!((once[i] - twice[i]).abs() <= 1.2e-7, "{v:?}: {once:?} {twice:?}");
        }
    }
}
