use mint::Vector3;
use minterpolate::catmull_rom_spline::catmull_tangent;
use minterpolate::cubic_spline::spline;
use minterpolate::{
    CatmullRomSplineSetInterpolate, CubicSplineSetInterpolate, InterpolationError, Scalar,
};

fn s(x: f32) -> Scalar {
    Scalar::from_bits(x.to_bits())
}

fn f(x: Scalar) -> f32 {
    f32::from_bits(x.to_bits())
}

fn times(xs: &[f32]) -> Vec<Scalar> {
    xs.iter().map(|x| s(*x)).collect()
}

fn arr3(v: [f32; 3]) -> [Scalar; 3] {
    [s(v[0]), s(v[1]), s(v[2])]
}

fn floats3(v: [Scalar; 3]) -> [f32; 3] {
    [f(v[0]), f(v[1]), f(v[2])]
}

fn scalars(xs: &[f32]) -> Vec<Scalar> {
    times(xs)
}

fn hermite_in_floats(d: f32, p0: f32, p1: f32, m0: f32, m1: f32) -> f32 {
    let d2 = d * d;
    let d3 = d2 * d;
    p0 * (2. * d3 - 3. * d2 + 1.) + m0 * (d3 - 2. * d2 + d) + p1 * (-2. * d3 + 3. * d2)
        + m1 * (d3 - d2)
}

#[test]
fn test_catmull() {
    let input = times(&[0., 1., 2., 3., 4.]);
    let output = vec![
        Vector3::from(arr3([1., 0., 0.])),
        Vector3::from(arr3([0., 0., 0.])),
        Vector3::from(arr3([1., 0., 0.])),
        Vector3::from(arr3([0., 0., 0.])),
        Vector3::from(arr3([-1., 0., 0.])),
        Vector3::from(arr3([0., 0., 0.])),
        Vector3::from(arr3([-1., 0., 0.])),
    ];
    let result: [Scalar; 3] = CatmullRomSplineSetInterpolate
        .interpolate(s(0.5), &input, &output, false)
        .unwrap()
        .into();
    assert_eq!(Vector3::from([0.625, 0., 0.]), Vector3::from(floats3(result)));
}

#[test]
fn catmull_interior_tangent_is_the_centered_difference() {
    let input = times(&[0., 1., 2.]);
    let output = vec![
        arr3([9., 9., 9.]),
        arr3([1., 0., 0.]),
        arr3([0., 0., 0.]),
        arr3([-1., 0., 0.]),
        arr3([7., 7., 7.]),
    ];
    assert_eq!(floats3(catmull_tangent(1, &input, &output)), [-1., 0., 0.]);
    assert_eq!(floats3(catmull_tangent(0, &input, &output)), [9., 9., 9.]);
    assert_eq!(floats3(catmull_tangent(2, &input, &output)), [7., 7., 7.]);
}

#[test]
fn catmull_tangent_divides_by_the_span_of_the_neighbours() {
    let input = times(&[0., 1., 4., 5.]);
    let output = scalars(&[0.5, 2., 3., 11., 12., -0.5]);
    assert_eq!(f(catmull_tangent(1, &input, &output)), (11. - 2.) * (1. / (4. - 0.)));
    assert_eq!(f(catmull_tangent(2, &input, &output)), (12. - 3.) * (1. / (5. - 1.)));
}

#[test]
fn catmull_follows_the_formula() {
    let input = times(&[0., 1., 4., 5.]);
    let buffer = [0.5f32, 2., 3., 11., 12., -0.5];
    let output = scalars(&buffer);
    let at = |t: f32, normalize: bool| {
        f(CatmullRomSplineSetInterpolate.interpolate(s(t), &input, &output, normalize).unwrap())
    };
    let m1 = (11. - 2.) * (1. / (4. - 0.));
    let m2 = (12. - 3.) * (1. / (5. - 1.));
    assert_eq!(at(0.25, false), hermite_in_floats((0.25 - 0.) / (1. - 0.), 2., 3., 0.5, m1));
    assert_eq!(at(2., false), hermite_in_floats((2. - 1.) / (4. - 1.), 3., 11., m1, m2));
    assert_eq!(at(4.5, false), hermite_in_floats((4.5 - 4.) / (5. - 4.), 11., 12., m2, -0.5));
    assert_eq!(at(0., false), 2.);
    assert_eq!(at(1., false), 3.);
}

#[test]
fn catmull_outside_the_range_is_the_last_position() {
    let input = times(&[1., 2., 3.]);
    let output = scalars(&[0.5, 10., 20., 30., -0.5]);
    let at = |t: f32| {
        f(CatmullRomSplineSetInterpolate.interpolate(s(t), &input, &output, true).unwrap())
    };
    assert_eq!(at(3.), 30.);
    assert_eq!(at(1000.), 30.);
    assert_eq!(at(f32::INFINITY), 30.);
    assert_eq!(at(0.), 30.);
}

#[test]
fn catmull_refuses_a_faulty_request() {
    let input = times(&[1., 2., 3.]);
    assert_eq!(
        CatmullRomSplineSetInterpolate.interpolate(s(1.5), &input, &scalars(&[1., 2., 3.]), false),
        Err(InterpolationError::MismatchedBufferLength)
    );
    assert_eq!(
        CatmullRomSplineSetInterpolate.interpolate(
            s(1.5),
            &times(&[1., 3., 2.]),
            &scalars(&[0., 1., 2., 3., 0.]),
            false
        ),
        Err(InterpolationError::NonMonotonicInputs)
    );
    assert_eq!(
        CatmullRomSplineSetInterpolate.interpolate(s(1.5), &[], &scalars(&[0., 0.]), false),
        Err(InterpolationError::EmptyKeyframeSet)
    );
}

#[test]
fn spline_follows_the_formula() {
    for (t, left, width) in [(0.5f32, 0.0f32, 1.0f32), (2.5, 2., 4.), (7., 3., 5.)] {
        let got = f(spline(s(t), s(left), s(width), &s(1.5), &s(-2.), &s(0.75), &s(3.)));
        assert_eq!(got, hermite_in_floats((t - left) / width, 1.5, -2., 0.75, 3.));
    }
    assert_eq!(f(spline(s(0.5), s(0.), s(1.), &s(0.), &s(1.), &s(1.), &s(0.))), 0.625);
    assert_eq!(f(spline(s(0.), s(0.), s(1.), &s(4.), &s(8.), &s(1.), &s(1.))), 4.);
    assert_eq!(f(spline(s(1.), s(0.), s(1.), &s(4.), &s(8.), &s(1.), &s(1.))), 8.);
}

#[test]
fn cubic_follows_the_formula() {
    let input = times(&[0., 2., 3.]);
    let buffer = [9.0f32, 1., 0.5, -0.25, 4., 2., 1.5, 6., 9.];
    let output = scalars(&buffer);
    let at = |t: f32, normalize: bool| {
        f(CubicSplineSetInterpolate.interpolate(s(t), &input, &output, normalize).unwrap())
    };
    assert_eq!(
        at(0.5, false),
        hermite_in_floats((0.5 - 0.) / 2., 1., 4., 0.5 * 2., -0.25 * 2.)
    );
    assert_eq!(
        at(2.25, false),
        hermite_in_floats((2.25 - 2.) / 1., 4., 6., 2. * 1., 1.5 * 1.)
    );
    assert_eq!(at(0., false), 1.);
    assert_eq!(at(2., false), 4.);
}

#[test]
fn cubic_normalizes_a_blend() {
    let input = times(&[0., 1.]);
    let output = vec![
        arr3([0., 0., 0.]),
        arr3([3., 0., 0.]),
        arr3([0., 0., 0.]),
        arr3([0., 0., 0.]),
        arr3([0., 4., 0.]),
        arr3([0., 0., 0.]),
    ];
    let raw = floats3(
        CubicSplineSetInterpolate.interpolate(s(0.5), &input, &output, false).unwrap(),
    );
    assert_eq!(raw, [1.5, 2., 0.]);
    let unit = floats3(
        CubicSplineSetInterpolate.interpolate(s(0.5), &input, &output, true).unwrap(),
    );
    assert_eq!(unit, [1.5 * (1. / 2.5), 2. * (1. / 2.5), 0.]);
}

#[test]
fn cubic_outside_the_range_is_a_position() {
    let input = times(&[1., 2.]);
    let output = scalars(&[-1., 10., -2., -3., 20., -4.]);
    let at = |t: f32| {
        f(CubicSplineSetInterpolate.interpolate(s(t), &input, &output, true).unwrap())
    };
    assert_eq!(at(0.), 10.);
    assert_eq!(at(-5.), 10.);
    assert_eq!(at(2.), 20.);
    assert_eq!(at(2.5), 20.);
    assert_eq!(at(1.0e20), 20.);
}

#[test]
fn cubic_refuses_a_faulty_request() {
    let input = times(&[1., 2.]);
    assert_eq!(
        CubicSplineSetInterpolate.interpolate(s(1.5), &input, &scalars(&[1., 2., 3., 4.]), false),
        Err(InterpolationError::MismatchedBufferLength)
    );
    assert_eq!(
        CubicSplineSetInterpolate.interpolate(
            s(1.5),
            &times(&[2., 2.]),
            &scalars(&[1., 2., 3., 4., 5., 6.]),
            false
        ),
        Err(InterpolationError::DegenerateInterval)
    );
}
