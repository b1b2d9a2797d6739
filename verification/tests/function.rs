use minterpolate::{
    linear_interpolate, quasi_spherical_linear_interpolate, spherical_linear_interpolate,
    step_interpolate, CatmullRomSplineSetInterpolate, CubicSplineSetInterpolate,
    InterpolationError, InterpolationFunction, Layout, Scalar,
};

type Custom = fn(Scalar, &[Scalar], &[Scalar], bool) -> Scalar;

type Selector = InterpolationFunction<Custom>;

fn s(x: f32) -> Scalar {
    Scalar::from_bits(x.to_bits())
}

fn f(x: Scalar) -> f32 {
    f32::from_bits(x.to_bits())
}

fn acos(x: Scalar) -> Scalar {
    s(f(x).acos())
}

fn sin(x: Scalar) -> Scalar {
    s(f(x).sin())
}

fn times(xs: &[f32]) -> Vec<Scalar> {
    xs.iter().map(|x| s(*x)).collect()
}

fn first_output(_: Scalar, _: &[Scalar], outputs: &[Scalar], _: bool) -> Scalar {
    outputs[0]
}

fn the_time(time: Scalar, _: &[Scalar], _: &[Scalar], _: bool) -> Scalar {
    time
}

fn named() -> Vec<Selector> {
    vec![
        Selector::Linear,
        Selector::SphericalLinear,
        Selector::QuasiSphericalLinear,
        Selector::Step,
        Selector::CatmullRomSpline,
        Selector::CubicSpline,
    ]
}

#[test]
fn named_selectors_are_equal_to_themselves_alone() {
    let all = named();
    for (i, a) in all.iter().enumerate() {
        for (j, b) in all.iter().enumerate() {
            assert_eq!(a == b, i == j);
            assert_eq!(a != b, i != j);
        }
        assert!(*a != Selector::Function(first_output));
        assert!(Selector::Function(first_output) != *a);
    }
}

#[test]
fn functions_are_never_equal() {
    let a = Selector::Function(first_output);
    let b = Selector::Function(first_output);
    let c = Selector::Function(the_time);
    assert!(a != b);
    assert!(a != a.clone());
    assert!(a != c);
    assert!(!(a == b));
}

#[test]
fn selectors_have_names_and_layouts() {
    let names: Vec<&str> = named().iter().map(|a| a.name()).collect();
    assert_eq!(
        names,
        [
            "Linear",
            "SphericalLinear",
            "QuasiSphericalLinear",
            "Step",
            "CatmullRomSpline",
            "CubicSpline"
        ]
    );
    assert_eq!(Selector::Function(the_time).name(), "Function");
    assert_eq!(Selector::Linear.layout(), Some(Layout::PerKeyframe));
    assert_eq!(Selector::SphericalLinear.layout(), Some(Layout::PerKeyframe));
    assert_eq!(Selector::QuasiSphericalLinear.layout(), Some(Layout::PerKeyframe));
    assert_eq!(Selector::Step.layout(), Some(Layout::PerKeyframe));
    assert_eq!(Selector::CatmullRomSpline.layout(), Some(Layout::Bracketed));
    assert_eq!(Selector::CubicSpline.layout(), Some(Layout::Triples));
    assert_eq!(Selector::Function(the_time).layout(), None);
}

#[test]
fn a_selector_calls_its_algorithm() {
    let input = times(&[0., 1., 2.]);
    let plain = times(&[0.25, 0.5, 1.]);
    let bracketed = times(&[0.5, 0.25, 0.5, 1., -0.5]);
    let triples = times(&[0., 0.25, 1., 1., 0.5, 2., 2., 1., 0.]);
    for t in [-1.0f32, 0., 0.3, 1., 1.6, 2., 5.] {
        for normalize in [false, true] {
            assert_eq!(
                Selector::Linear.interpolate(s(t), &input, &plain, normalize, acos, sin),
                linear_interpolate(s(t), &input, &plain, normalize)
            );
            assert_eq!(
                Selector::SphericalLinear.interpolate(s(t), &input, &plain, normalize, acos, sin),
                spherical_linear_interpolate(s(t), &input, &plain, normalize, acos, sin)
            );
            assert_eq!(
                Selector::QuasiSphericalLinear
                    .interpolate(s(t), &input, &plain, normalize, acos, sin),
                quasi_spherical_linear_interpolate(s(t), &input, &plain, normalize)
            );
            assert_eq!(
                Selector::Step.interpolate(s(t), &input, &plain, normalize, acos, sin),
                step_interpolate(s(t), &input, &plain, normalize)
            );
            assert_eq!(
                Selector::CatmullRomSpline
                    .interpolate(s(t), &input, &bracketed, normalize, acos, sin),
                CatmullRomSplineSetInterpolate.interpolate(s(t), &input, &bracketed, normalize)
            );
            assert_eq!(
                Selector::CubicSpline.interpolate(s(t), &input, &triples, normalize, acos, sin),
                CubicSplineSetInterpolate.interpolate(s(t), &input, &triples, normalize)
            );
        }
    }
    assert_eq!(
        Selector::Linear.interpolate(s(0.5), &input, &plain, false, acos, sin).map(f),
        Ok(0.375)
    );
    assert_eq!(
        Selector::Step.interpolate(s(1.5), &input, &plain, false, acos, sin).map(f),
        Ok(0.5)
    );
}

#[test]
fn a_selector_refuses_what_its_layout_does_not_fit() {
    let input = times(&[0., 1., 2.]);
    let plain = times(&[0.25, 0.5, 1.]);
    assert_eq!(
        Selector::CubicSpline.interpolate(s(0.5), &input, &plain, false, acos, sin),
        Err(InterpolationError::MismatchedBufferLength)
    );
    assert_eq!(
        Selector::CatmullRomSpline.interpolate(s(0.5), &input, &plain, false, acos, sin),
        Err(InterpolationError::MismatchedBufferLength)
    );
    assert_eq!(
        Selector::Linear.interpolate(s(0.5), &input, &[], false, acos, sin),
        Err(InterpolationError::EmptyKeyframeSet)
    );
}

#[test]
fn a_function_of_the_caller_is_called_as_it_is() {
    let input = times(&[0., 1., 2.]);
    let plain = times(&[0.25, 0.5, 1.]);
    assert_eq!(
        Selector::Function(first_output)
            .interpolate(s(1.5), &input, &plain, false, acos, sin)
            .map(f),
        Ok(0.25)
    );
    assert_eq!(
        Selector::Function(the_time)
            .interpolate(s(1.5), &[], &plain, true, acos, sin)
            .map(f),
        Ok(1.5)
    );
}
