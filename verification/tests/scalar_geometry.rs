use falling_words::geometry::{check_box, check_dense_box, GeometryError};
use falling_words::scalar::{Scalar, INFINITY_BITS, SIGN_MASK, ZERO_BITS};
use falling_words::universe::GRAVITY_BITS;
use falling_words::word::ANGULAR_DAMPING_BITS;

fn s(value: f32) -> Scalar {
    Scalar::from_bits(value.to_bits())
}

#[test]
fn scalar_keeps_its_bits() {
    for bits in [0u32, 1, 0x3F80_0000, 0x7F80_0000, 0x7FC0_0001, 0x8000_0000, u32::MAX] {
        assert_eq!(Scalar::from_bits(bits).to_bits(), bits);
    }
    assert_eq!(s(1.5).to_bits(), 0x3FC0_0000);
}

#[test]
fn constants_encode_their_numbers() {
    assert_eq!(ZERO_BITS, 0.0f32.to_bits());
    assert_eq!(GRAVITY_BITS, 20.0f32.to_bits());
    assert_eq!(ANGULAR_DAMPING_BITS, 20.0f32.to_bits());
    assert_eq!(INFINITY_BITS, f32::INFINITY.to_bits());
    assert_eq!(SIGN_MASK, (-0.0f32).to_bits());
    assert_eq!(f32::from_bits(Scalar::zero().to_bits()), 0.0);
    assert_eq!(Scalar::zero(), s(0.0));
}

#[test]
fn is_finite_agrees_with_the_hardware() {
    let values = [
        0.0f32,
        -0.0,
        1.0,
        -1.0,
        f32::MIN_POSITIVE,
        f32::from_bits(1),
        f32::MAX,
        f32::MIN,
        f32::INFINITY,
        f32::NEG_INFINITY,
        f32::NAN,
        -f32::NAN,
        f32::from_bits(0x7F80_0001),
        f32::from_bits(0xFFFF_FFFF),
    ];
    for value in values {
        assert_eq!(s(value).is_finite(), value.is_finite(), "{:?}", value);
    }
}

#[test]
fn is_positive_agrees_with_the_hardware() {
    let values = [
        0.0f32,
        -0.0,
        1.0,
        -1.0,
        f32::MIN_POSITIVE,
        f32::from_bits(1),
        -f32::from_bits(1),
        f32::MAX,
        f32::MIN,
        f32::INFINITY,
        f32::NEG_INFINITY,
        f32::NAN,
        -f32::NAN,
    ];
    for value in values {
        assert_eq!(s(value).is_positive(), value.is_finite() && value > 0.0, "{:?}", value);
    }
}

#[test]
fn valid_box_is_accepted() {
    assert_eq!(check_box(s(50.0), s(100.0), s(50.0), s(5.0)), Ok(()));
    assert_eq!(check_box(s(-1e30), s(0.0), s(1e-30), s(1e30)), Ok(()));
    assert_eq!(check_dense_box(s(10.0), s(-5.0), s(10.0), s(5.0), s(200.0)), Ok(()));
}

#[test]
fn center_must_be_finite() {
    let fault = Err(GeometryError::CenterNotFinite);
    assert_eq!(check_box(s(f32::NAN), s(0.0), s(1.0), s(1.0)), fault);
    assert_eq!(check_box(s(0.0), s(f32::INFINITY), s(1.0), s(1.0)), fault);
    assert_eq!(check_box(s(f32::NEG_INFINITY), s(0.0), s(1.0), s(1.0)), fault);
    assert_eq!(check_dense_box(s(0.0), s(f32::NAN), s(1.0), s(1.0), s(1.0)), fault);
}

#[test]
fn width_must_be_positive() {
    let fault = Err(GeometryError::WidthNotPositive);
    assert_eq!(check_box(s(0.0), s(0.0), s(0.0), s(1.0)), fault);
    assert_eq!(check_box(s(0.0), s(0.0), s(-0.0), s(1.0)), fault);
    assert_eq!(check_box(s(0.0), s(0.0), s(-3.0), s(1.0)), fault);
    assert_eq!(check_box(s(0.0), s(0.0), s(f32::INFINITY), s(1.0)), fault);
    assert_eq!(check_box(s(0.0), s(0.0), s(f32::NAN), s(1.0)), fault);
    assert_eq!(check_dense_box(s(0.0), s(0.0), s(0.0), s(1.0), s(1.0)), fault);
}

#[test]
fn height_must_be_positive() {
    let fault = Err(GeometryError::HeightNotPositive);
    assert_eq!(check_box(s(0.0), s(0.0), s(1.0), s(0.0)), fault);
    assert_eq!(check_box(s(0.0), s(0.0), s(1.0), s(-2.0)), fault);
    assert_eq!(check_box(s(0.0), s(0.0), s(1.0), s(f32::NAN)), fault);
    assert_eq!(check_dense_box(s(0.0), s(0.0), s(1.0), s(f32::INFINITY), s(1.0)), fault);
}

#[test]
fn density_must_be_positive() {
    let fault = Err(GeometryError::DensityNotPositive);
    assert_eq!(check_dense_box(s(0.0), s(0.0), s(1.0), s(1.0), s(0.0)), fault);
    assert_eq!(check_dense_box(s(0.0), s(0.0), s(1.0), s(1.0), s(-1.0)), fault);
    assert_eq!(check_dense_box(s(0.0), s(0.0), s(1.0), s(1.0), s(f32::INFINITY)), fault);
    assert_eq!(check_dense_box(s(0.0), s(0.0), s(1.0), s(1.0), s(f32::NAN)), fault);
}

#[test]
fn first_fault_is_named() {
    let nan = s(f32::NAN);
    assert_eq!(check_box(nan, nan, nan, nan), Err(GeometryError::CenterNotFinite));
    assert_eq!(check_box(s(0.0), s(0.0), nan, nan), Err(GeometryError::WidthNotPositive));
    assert_eq!(
        check_dense_box(s(0.0), s(0.0), nan, nan, nan),
        Err(GeometryError::WidthNotPositive)
    );
    assert_eq!(
        check_dense_box(s(0.0), s(0.0), s(1.0), nan, nan),
        Err(GeometryError::HeightNotPositive)
    );
}

#[test]
fn faults_are_put_in_words() {
    assert_eq!(GeometryError::CenterNotFinite.message(), "the position is not finite");
    assert_eq!(GeometryError::WidthNotPositive.message(), "the width is not positive");
    assert_eq!(GeometryError::HeightNotPositive.message(), "the height is not positive");
    assert_eq!(GeometryError::DensityNotPositive.message(), "the density is not positive");
}
