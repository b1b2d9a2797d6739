use mint::{Quaternion, Vector3};
use minterpolate::{step_interpolate, InterpolationError, Scalar};

fn s(x: f32) -> Scalar {
    Scalar::from_bits(x.to_bits())
}

fn times(xs: &[f32]) -> Vec<Scalar> {
    xs.iter().map(|x| s(*x)).collect()
}

#[test]
fn test_step_arr3() {
    let input = times(&[0., 1., 2., 3., 4.]);
    let output = vec![
        [0., 0., 0.],
        [1., 0., 0.],
        [0., 0., 0.],
        [-1., 0., 0.],
        [0., 0., 0.],
    ];
    assert_eq!(Ok([0., 0., 0.]), step_interpolate(s(0.5), &input, &output, false));
}

#[test]
fn test_step_arr4() {
    let input = times(&[0., 1., 2., 3., 4.]);
    let output = vec![
        [0., 0., 0., 0.],
        [1., 0., 0., 0.],
        [0., 0., 0., 0.],
        [-1., 0., 0., 0.],
        [0., 0., 0., 0.],
    ];
    assert_eq!(
        Ok([0., 0., 0., 0.]),
        step_interpolate(s(0.5), &input, &output, true)
    );
}

#[test]
fn test_step_vec3() {
    let input = times(&[0., 1., 2., 3., 4.]);
    let output = vec![
        Vector3::from([0., 0., 0.]),
        Vector3::from([1., 0., 0.]),
        Vector3::from([0., 0., 0.]),
        Vector3::from([-1., 0., 0.]),
        Vector3::from([0., 0., 0.]),
    ];
    assert_eq!(
        Ok(Vector3::from([0., 0., 0.])),
        step_interpolate(s(0.5), &input, &output, false)
    );
}

#[test]
fn test_step_quat() {
    let input = times(&[0., 1., 2., 3., 4.]);
    let output = vec![
        Quaternion::from([0., 0., 0., 0.]),
        Quaternion::from([1., 0., 0., 0.]),
        Quaternion::from([0., 0., 0., 0.]),
        Quaternion::from([-1., 0., 0., 0.]),
        Quaternion::from([0., 0., 0., 0.]),
    ];
    assert_eq!(
        Ok(Quaternion::from([0., 0., 0., 0.])),
        step_interpolate(s(0.5), &input, &output, true)
    );
}

#[test]
fn step_holds_each_keyframe_until_the_next() {
    let input = times(&[0., 1., 2., 3., 4.]);
    let output = vec![10, 11, 12, 13, 14];
    let at = |t: f32| step_interpolate(s(t), &input, &output, false);
    assert_eq!(at(-1.), Ok(10));
    assert_eq!(at(0.), Ok(10));
    assert_eq!(at(0.999), Ok(10));
    assert_eq!(at(1.), Ok(11));
    assert_eq!(at(2.5), Ok(12));
    assert_eq!(at(3.), Ok(13));
    assert_eq!(at(3.999), Ok(13));
    assert_eq!(at(4.), Ok(14));
    assert_eq!(at(4.5), Ok(14));
    assert_eq!(at(1.0e30), Ok(14));
    assert_eq!(at(f32::INFINITY), Ok(14));
    assert_eq!(at(f32::NEG_INFINITY), Ok(10));
}

#[test]
fn step_on_a_single_keyframe() {
    let input = times(&[2.]);
    let output = vec!['a'];
    assert_eq!(step_interpolate(s(0.), &input, &output, false), Ok('a'));
    assert_eq!(step_interpolate(s(2.), &input, &output, false), Ok('a'));
    assert_eq!(step_interpolate(s(9.), &input, &output, true), Ok('a'));
}

#[test]
fn step_refuses_a_faulty_request() {
    let input = times(&[0., 1., 2.]);
    let none: Vec<Scalar> = Vec::new();
    let empty: Vec<u8> = Vec::new();
    assert_eq!(
        step_interpolate(s(0.5), &none, &[1u8, 2, 3], false),
        Err(InterpolationError::EmptyKeyframeSet)
    );
    assert_eq!(
        step_interpolate(s(0.5), &input, &empty, false),
        Err(InterpolationError::EmptyKeyframeSet)
    );
    assert_eq!(
        step_interpolate(s(0.5), &input, &[1u8, 2], false),
        Err(InterpolationError::MismatchedBufferLength)
    );
    assert_eq!(
        step_interpolate(s(f32::NAN), &input, &[1u8, 2, 3], false),
        Err(InterpolationError::NotComparable)
    );
    assert_eq!(
        step_interpolate(s(0.5), &times(&[0., f32::NAN, 2.]), &[1u8, 2, 3], false),
        Err(InterpolationError::NotComparable)
    );
    assert_eq!(
        step_interpolate(s(0.5), &times(&[0., 2., 1.]), &[1u8, 2, 3], false),
        Err(InterpolationError::NonMonotonicInputs)
    );
    assert_eq!(
        step_interpolate(s(0.5), &times(&[-1., 0., 1.]), &[1u8, 2, 3], false),
        Err(InterpolationError::NonMonotonicInputs)
    );
    assert_eq!(
        step_interpolate(s(0.5), &times(&[0., 1., 1.]), &[1u8, 2, 3], false),
        Err(InterpolationError::DegenerateInterval)
    );
}
