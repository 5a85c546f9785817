//! Capability traits that scalar and vector types must provide to be used by
//! this library.
//!
//! Every executable operation is paired with a `spec` counterpart; the
//! contract of each operation ties the value it returns to that counterpart,
//! so that everything built on top of these traits can be specified exactly.
//!
//! Each `spec` counterpart carries an unconstrained default body, so that a
//! math backend outside the verifier can still implement these traits; such
//! an implementation inherits a specification that promises nothing. Every
//! implementation inside this crate overrides the defaults with exact
//! definitions.

use vstd::prelude::*;

verus! {

/// The arithmetic a scalar must support: addition, subtraction,
/// multiplication, division and negation, each tied to its spec counterpart.
pub trait Arith: Sized + Copy {
    open spec fn spec_add(self, other: Self) -> Self {
        vstd::pervasive::arbitrary()
    }

    open spec fn spec_sub(self, other: Self) -> Self {
        vstd::pervasive::arbitrary()
    }

    open spec fn spec_mul(self, other: Self) -> Self {
        vstd::pervasive::arbitrary()
    }

    open spec fn spec_div(self, other: Self) -> Self {
        vstd::pervasive::arbitrary()
    }

    open spec fn spec_neg(self) -> Self {
        vstd::pervasive::arbitrary()
    }

    fn add(&self, other: Self) -> (r: Self)
        ensures
            r == self.spec_add(other),
    ;

    fn sub(&self, other: Self) -> (r: Self)
        ensures
            r == self.spec_sub(other),
    ;

    fn mul(&self, other: Self) -> (r: Self)
        ensures
            r == self.spec_mul(other),
    ;

    fn div(&self, other: Self) -> (r: Self)
        ensures
            r == self.spec_div(other),
    ;

    fn neg(&self) -> (r: Self)
        ensures
            r == self.spec_neg(),
    ;
}

/// Return the maximum or minimum of `self` and `other`.
pub trait MaxMin: Sized + Copy {
    open spec fn spec_max(self, other: Self) -> Self {
        vstd::pervasive::arbitrary()
    }

    open spec fn spec_min(self, other: Self) -> Self {
        vstd::pervasive::arbitrary()
    }

    fn max(&self, other: Self) -> (r: Self)
        ensures
            r == self.spec_max(other),
    ;

    fn min(&self, other: Self) -> (r: Self)
        ensures
            r == self.spec_min(other),
    ;
}

/// The multiplicative identity.
pub trait One: Sized + Copy {
    open spec fn spec_one() -> Self {
        vstd::pervasive::arbitrary()
    }

    fn one() -> (r: Self)
        ensures
            r == Self::spec_one(),
    ;
}

/// The additive identity.
pub trait Zero: Sized + Copy {
    open spec fn spec_zero() -> Self {
        vstd::pervasive::arbitrary()
    }

    fn zero() -> (r: Self)
        ensures
            r == Self::spec_zero(),
    ;
}

/// One half, as used by the polynomial smooth minimum.
pub trait PointFive: Sized + Copy {
    open spec fn spec_point_five() -> Self {
        vstd::pervasive::arbitrary()
    }

    fn point_five() -> (r: Self)
        ensures
            r == Self::spec_point_five(),
    ;
}

/// The linear interpolation `self * (1 - factor) + other * factor`; `factor`
/// may lie outside `[0, 1]`, in which case this extrapolates.
pub open spec fn lerp_spec<T: Arith + One>(a: T, b: T, factor: T) -> T {
    a.spec_mul(T::spec_one().spec_sub(factor)).spec_add(b.spec_mul(factor))
}

/// Linear interpolation between `self` and `other`.
pub trait Lerp: Arith + One {
    fn lerp(&self, other: Self, factor: Self) -> (r: Self)
        ensures
            r == lerp_spec(*self, other, factor),
    {
        self.mul(Self::one().sub(factor)).add(other.mul(factor))
    }
}

/// The clamp `self.max(low).min(high)`; if `low > high` the result is
/// whatever that formula gives, and callers must not rely on it.
pub open spec fn clamp_spec<T: MaxMin>(x: T, low: T, high: T) -> T {
    x.spec_max(low).spec_min(high)
}

/// Clamp the value(s) of `self` to between `low` and `high`.
pub trait Clamp: MaxMin {
    fn clamp(&self, low: Self, high: Self) -> (r: Self)
        ensures
            r == clamp_spec(*self, low, high),
    {
        self.max(low).min(high)
    }
}

/// Raises `2^self`.
pub trait Exp2: Sized + Copy {
    open spec fn spec_exp2(self) -> Self {
        vstd::pervasive::arbitrary()
    }

    fn exp2(&self) -> (r: Self)
        ensures
            r == self.spec_exp2(),
    ;
}

/// Returns log base 2 of `self`.
pub trait Log2: Sized + Copy {
    open spec fn spec_log2(self) -> Self {
        vstd::pervasive::arbitrary()
    }

    fn log2(&self) -> (r: Self)
        ensures
            r == self.spec_log2(),
    ;
}

/// A marker for the dimensionality of a vector, a field, or an implementation
/// of a field combinator.
pub trait Dimension {}

/// 2D marker struct.
#[derive(Clone, Copy, Debug)]
pub struct Dim2D {}

/// 3D marker struct.
#[derive(Clone, Copy, Debug)]
pub struct Dim3D {}

impl Dimension for Dim2D {}

impl Dimension for Dim3D {}

/// Functionality shared between all vector types: component-wise arithmetic
/// and component-wise max/min/clamp, plus dot product, Euclidean magnitude,
/// absolute value and normalization.
///
/// `normalized` on the zero vector returns whatever the type's division by
/// its zero magnitude gives; it is not specially guarded.
pub trait Vec<T>: Sized + Copy + MaxMin + Zero + One + Clamp {
    type Dimension: Dimension;

    type Vec2;

    type Vec3;

    open spec fn spec_add(self, other: Self) -> Self {
        vstd::pervasive::arbitrary()
    }

    open spec fn spec_sub(self, other: Self) -> Self {
        vstd::pervasive::arbitrary()
    }

    open spec fn spec_neg(self) -> Self {
        vstd::pervasive::arbitrary()
    }

    open spec fn spec_mul_scalar(self, s: T) -> Self {
        vstd::pervasive::arbitrary()
    }

    open spec fn spec_div_scalar(self, s: T) -> Self {
        vstd::pervasive::arbitrary()
    }

    open spec fn spec_dot(self, other: Self) -> T {
        vstd::pervasive::arbitrary()
    }

    open spec fn spec_magnitude(self) -> T {
        vstd::pervasive::arbitrary()
    }

    open spec fn spec_abs(self) -> Self {
        vstd::pervasive::arbitrary()
    }

    open spec fn spec_normalized(self) -> Self {
        vstd::pervasive::arbitrary()
    }

    fn add(&self, other: Self) -> (r: Self)
        ensures
            r == self.spec_add(other),
    ;

    fn sub(&self, other: Self) -> (r: Self)
        ensures
            r == self.spec_sub(other),
    ;

    fn neg(&self) -> (r: Self)
        ensures
            r == self.spec_neg(),
    ;

    fn mul_scalar(&self, s: T) -> (r: Self)
        ensures
            r == self.spec_mul_scalar(s),
    ;

    fn div_scalar(&self, s: T) -> (r: Self)
        ensures
            r == self.spec_div_scalar(s),
    ;

    fn dot(&self, other: Self) -> (r: T)
        ensures
            r == self.spec_dot(other),
    ;

    fn magnitude(&self) -> (r: T)
        ensures
            r == self.spec_magnitude(),
    ;

    fn abs(&self) -> (r: Self)
        ensures
            r == self.spec_abs(),
    ;

    fn normalized(&self) -> (r: Self)
        ensures
            r == self.spec_normalized(),
    ;
}

/// Functionality that must be implemented by 3D vectors.
pub trait Vec3<T>: Vec<T> {
    open spec fn spec_new(x: T, y: T, z: T) -> Self {
        vstd::pervasive::arbitrary()
    }

    open spec fn spec_x(self) -> T {
        vstd::pervasive::arbitrary()
    }

    open spec fn spec_y(self) -> T {
        vstd::pervasive::arbitrary()
    }

    open spec fn spec_z(self) -> T {
        vstd::pervasive::arbitrary()
    }

    fn new(x: T, y: T, z: T) -> (r: Self)
        ensures
            r == Self::spec_new(x, y, z),
    ;

    fn x(&self) -> (r: T)
        ensures
            r == self.spec_x(),
    ;

    fn y(&self) -> (r: T)
        ensures
            r == self.spec_y(),
    ;

    fn z(&self) -> (r: T)
        ensures
            r == self.spec_z(),
    ;
}

/// Functionality that must be implemented by 2D vectors.
pub trait Vec2<T>: Vec<T> {
    open spec fn spec_new(x: T, y: T) -> Self {
        vstd::pervasive::arbitrary()
    }

    open spec fn spec_x(self) -> T {
        vstd::pervasive::arbitrary()
    }

    open spec fn spec_y(self) -> T {
        vstd::pervasive::arbitrary()
    }

    fn new(x: T, y: T) -> (r: Self)
        ensures
            r == Self::spec_new(x, y),
    ;

    fn x(&self) -> (r: T)
        ensures
            r == self.spec_x(),
    ;

    fn y(&self) -> (r: T)
        ensures
            r == self.spec_y(),
    ;
}

/// A type that can rotate a vector, used to rotate a field.
///
/// The implementation must rotate the vector by the *inverse* of the rotation
/// the type would natively produce: a sample point has to be mapped into the
/// rotated field's local frame, so callers pass the forward rotation they
/// intend visually and the inversion is baked in here.
pub trait Rotation<V>: Sized + Copy {
    open spec fn spec_rotate_vec(self, v: V) -> V {
        vstd::pervasive::arbitrary()
    }

    fn rotate_vec(&self, v: V) -> (r: V)
        ensures
            r == self.spec_rotate_vec(v),
    ;
}

} // verus!
