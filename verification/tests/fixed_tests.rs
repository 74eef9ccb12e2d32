use ray_tracing::fixed::{Fixed, RAW_MAX, SCALE};

#[test]
fn from_int_scales() {
    assert_eq!(Fixed::from_int(1).r, 65536);
    assert_eq!(Fixed::from_int(-3).r, -196608);
    assert_eq!(Fixed::from_int(0).r, 0);
}

#[test]
fn add_and_sub_are_exact() {
    let a = Fixed::from_int(2);
    let b = Fixed::from_int(3);
    assert_eq!(a.add(b).r, 5 * SCALE);
    assert_eq!(a.sub(b).r, -SCALE);
    assert_eq!(b.neg().r, -3 * SCALE);
}

#[test]
fn add_saturates() {
    let m = Fixed { r: RAW_MAX };
    assert_eq!(m.add(m).r, RAW_MAX);
    assert_eq!(m.neg().add(m.neg()).r, -RAW_MAX);
}

#[test]
fn mul_is_exact_on_halves() {
    let a = Fixed { r: 98304 }; // 1.5
    let b = Fixed::from_int(2);
    assert_eq!(a.mul(b).r, 196608); // 3.0
    let half = Fixed { r: 32768 };
    assert_eq!(half.mul(half).r, 16384); // 0.25
}

#[test]
fn mul_truncates_toward_zero() {
    // (1/65536) * (1/65536) rounds to zero from either sign.
    let eps = Fixed { r: 1 };
    assert_eq!(eps.mul(eps).r, 0);
    assert_eq!(eps.neg().mul(eps).r, 0);
}

#[test]
fn div_is_exact_on_powers_of_two() {
    let a = Fixed::from_int(3);
    let b = Fixed::from_int(2);
    assert_eq!(a.div(b).r, 98304); // 1.5
    assert_eq!(a.neg().div(b).r, -98304);
}

#[test]
fn div_by_zero_yields_zero() {
    let a = Fixed::from_int(7);
    assert_eq!(a.div(Fixed { r: 0 }).r, 0);
}

#[test]
fn sqrt_is_exact_on_squares() {
    assert_eq!(Fixed::from_int(4).sqrt().r, 2 * SCALE);
    assert_eq!(Fixed::from_int(1).sqrt().r, SCALE);
    assert_eq!(Fixed { r: 0 }.sqrt().r, 0);
    assert_eq!(Fixed::from_int(-4).sqrt().r, 0);
}

#[test]
fn sqrt_takes_the_floor() {
    // sqrt(2) = 1.41421356...; raw floor is 92681.
    assert_eq!(Fixed::from_int(2).sqrt().r, 92681);
}

#[test]
fn trunc_drops_the_fraction_toward_zero() {
    assert_eq!(Fixed { r: 98304 }.trunc(), 1); // 1.5
    assert_eq!(Fixed { r: -98304 }.trunc(), -1); // -1.5
    assert_eq!(Fixed::from_int(42).trunc(), 42);
}
