use sdfu::fixed::{Fixed, Fixed2, Fixed3, QuarterTurn};
use sdfu::mathtypes::{
    Arith, Clamp, Exp2, Lerp, Log2, MaxMin, One, PointFive, Rotation, Vec, Vec2, Vec3, Zero,
};
use sdfu::Axis;

fn fx(i: i64) -> Fixed {
    Fixed::from_int(i)
}

fn v3(x: i64, y: i64, z: i64) -> Fixed3 {
    Fixed3::new(fx(x), fx(y), fx(z))
}

#[test]
fn scalar_add_sub_neg() {
    assert_eq!(fx(2).add(fx(3)), fx(5));
    assert_eq!(fx(2).sub(fx(3)), fx(-1));
    assert_eq!(fx(2).neg(), fx(-2));
}

#[test]
fn scalar_add_saturates_symmetrically() {
    let top = Fixed::from_raw(i64::MAX);
    assert_eq!(top.add(top).raw, i64::MAX);
    let bottom = top.neg();
    assert_eq!(bottom.raw, -i64::MAX);
    assert_eq!(bottom.add(bottom).raw, -i64::MAX);
    // from_raw pulls the one value below -MAX back into the symmetric range
    assert_eq!(Fixed::from_raw(i64::MIN).raw, -i64::MAX);
}

#[test]
fn scalar_mul_rounds_toward_negative_infinity() {
    assert_eq!(fx(3).mul(fx(4)), fx(12));
    assert_eq!(fx(-3).mul(fx(4)), fx(-12));
    // one raw unit squared underflows to zero...
    assert_eq!(Fixed::from_raw(1).mul(Fixed::from_raw(1)).raw, 0);
    // ...but on the negative side the floor pushes down to minus one unit
    assert_eq!(Fixed::from_raw(-1).mul(Fixed::from_raw(1)).raw, -1);
}

#[test]
fn scalar_div_floors_and_zero_divisor_gives_zero() {
    assert_eq!(fx(6).div(fx(3)), fx(2));
    // 1/3 in 16 fractional bits: floor(65536 / 3) = 21845
    assert_eq!(fx(1).div(fx(3)).raw, 21845);
    assert_eq!(fx(-1).div(fx(3)).raw, -21846);
    assert_eq!(fx(5).div(fx(0)).raw, 0);
}

#[test]
fn scalar_min_max_clamp() {
    assert_eq!(fx(2).max(fx(3)), fx(3));
    assert_eq!(fx(2).min(fx(3)), fx(2));
    assert_eq!(fx(5).clamp(fx(0), fx(1)), fx(1));
    assert_eq!(fx(-5).clamp(fx(0), fx(1)), fx(0));
    assert_eq!(Fixed::from_raw(300).clamp(fx(0), fx(1)).raw, 300);
}

#[test]
fn scalar_lerp_matches_formula() {
    // lerp(0, 1, 0.5) = 0.5
    assert_eq!(fx(0).lerp(fx(1), Fixed::point_five()).raw, 32768);
    // lerp(2, 6, 0.25): 2 * 0.75 + 6 * 0.25 = 3
    let quarter = Fixed::from_raw(16384);
    assert_eq!(fx(2).lerp(fx(6), quarter), fx(3));
    // factors outside [0, 1] extrapolate: lerp(0, 2, 1.5) = 3
    let one_and_half = Fixed::from_raw(98304);
    assert_eq!(fx(0).lerp(fx(2), one_and_half), fx(3));
}

#[test]
fn scalar_identities() {
    assert_eq!(Fixed::zero().raw, 0);
    assert_eq!(Fixed::one().raw, 65536);
    assert_eq!(Fixed::point_five().raw, 32768);
}

#[test]
fn vector_componentwise_ops() {
    let a = v3(1, 2, 3);
    let b = v3(4, -5, 6);
    assert_eq!(a.add(b), v3(5, -3, 9));
    assert_eq!(a.sub(b), v3(-3, 7, -3));
    assert_eq!(a.neg(), v3(-1, -2, -3));
    assert_eq!(b.abs(), v3(4, 5, 6));
    assert_eq!(a.mul_scalar(fx(2)), v3(2, 4, 6));
    let half = a.div_scalar(fx(2));
    assert_eq!((half.x.raw, half.y.raw, half.z.raw), (32768, 65536, 98304));
    assert_eq!(a.max(b), v3(4, 2, 6));
    assert_eq!(a.min(b), v3(1, -5, 3));
    assert_eq!(a.clamp(v3(0, 0, 0), v3(2, 2, 2)), v3(1, 2, 2));
    assert_eq!(Fixed3::zero(), v3(0, 0, 0));
    assert_eq!(Fixed3::one(), v3(1, 1, 1));
}

#[test]
fn vector_dot_and_magnitude() {
    let a = v3(1, 2, 3);
    let b = v3(4, -5, 6);
    assert_eq!(a.dot(b), fx(4 - 10 + 18));
    assert_eq!(v3(3, 4, 0).magnitude(), fx(5));
    assert_eq!(v3(0, 0, 0).magnitude(), fx(0));
    // 2D: a 5-12-13 triangle
    let p = Fixed2::new(fx(5), fx(12));
    assert_eq!(p.magnitude(), fx(13));
    assert_eq!(p.dot(Fixed2::new(fx(2), fx(1))), fx(22));
}

#[test]
fn vector_magnitude_saturates() {
    let big = Fixed3::new(
        Fixed::from_raw(i64::MAX),
        Fixed::from_raw(i64::MAX),
        Fixed::from_raw(i64::MAX),
    );
    assert_eq!(big.magnitude().raw, i64::MAX);
}

#[test]
fn vector_normalized() {
    let n = v3(3, 4, 0).normalized();
    // exactly (3/5, 4/5, 0) in fixed point: 0.6 * 65536 = 39321.6 floors
    assert_eq!((n.x.raw, n.y.raw, n.z.raw), (39321, 52428, 0));
    // the zero vector divides by a zero magnitude, which is defined as zero
    assert_eq!(v3(0, 0, 0).normalized(), v3(0, 0, 0));
}

#[test]
fn quarter_turn_applies_inverse_rotation() {
    let p = v3(1, 2, 3);
    // the inverse of a quarter turn about Z maps (x, y, z) to (y, -x, z)
    assert_eq!(QuarterTurn::new(Axis::Z).rotate_vec(p), v3(2, -1, 3));
    assert_eq!(QuarterTurn::new(Axis::X).rotate_vec(p), v3(1, 3, -2));
    assert_eq!(QuarterTurn::new(Axis::Y).rotate_vec(p), v3(-3, 2, 1));
}

#[test]
fn scalar_exp2_exact_on_integers() {
    assert_eq!(fx(0).exp2(), fx(1));
    assert_eq!(fx(1).exp2(), fx(2));
    assert_eq!(fx(3).exp2(), fx(8));
    assert_eq!(fx(-1).exp2().raw, 32768);
    assert_eq!(fx(-2).exp2().raw, 16384);
    // between integers the exponential interpolates linearly: 2^0.5 becomes 1.5
    assert_eq!(Fixed::point_five().exp2().raw, 98304);
    // deep underflow gives zero; large exponents saturate
    assert_eq!(fx(-40).exp2().raw, 0);
    assert_eq!(fx(64).exp2().raw, i64::MAX);
}

#[test]
fn scalar_log2_exact_on_powers_of_two() {
    assert_eq!(fx(1).log2(), fx(0));
    assert_eq!(fx(8).log2(), fx(3));
    assert_eq!(Fixed::point_five().log2(), fx(-1));
    // between powers of two the logarithm interpolates linearly: log2 6 becomes 2.5
    assert_eq!(fx(6).log2().raw, 163840);
    // inputs at or below zero saturate to the bottom of the range
    assert_eq!(fx(0).log2().raw, -i64::MAX);
    assert_eq!(fx(-5).log2().raw, -i64::MAX);
}

#[test]
fn scalar_exp2_log2_round_trip_on_integers() {
    for i in [-3i64, -1, 0, 1, 2, 5, 10] {
        assert_eq!(fx(i).exp2().log2(), fx(i));
    }
}
