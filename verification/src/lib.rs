//! A compositional algebra for signed distance fields (SDFs).
//!
//! A signed distance field maps a point in 2D or 3D space to the signed
//! distance from that point to the boundary of an implicit shape: negative
//! strictly inside, positive strictly outside, zero on the boundary. This
//! crate lets primitive shapes be combined, blended and spatially transformed
//! into arbitrarily complex fields, and lets surface normals be estimated
//! from them, as a ray-marching renderer needs.
//!
//! The crate is built around the central trait [`SDF`]. Anything implementing
//! it can return a distance from a point to its distance field, and fields
//! can be combined and modified through the combinator methods on the trait
//! or through the structs in [`ops`] and [`mods`] directly. The primitives in
//! [`primitives`] are the usual starting points.
//!
//! The scalar and vector types the algebra runs on are pluggable: anything
//! satisfying the capability traits in [`mathtypes`] works. Every operation
//! there carries a specification, and every field's `dist` is proved equal to
//! its specification, so the whole composition tree is exact over the
//! underlying scalar semantics. The [`fixed`] module provides a self-contained
//! fixed-point scalar and vectors over it with fully specified (saturating)
//! arithmetic; adapters for floating-point math libraries can be layered on
//! outside, by implementing the same capability traits.

use vstd::prelude::*;

pub mod mathtypes;
pub mod primitives;
pub mod ops;
pub mod mods;
pub mod util;
pub mod fixed;

pub use mathtypes::{Dim2D, Dim3D, Dimension};
pub use primitives::{Axis, Box, CappedCylinder, Capsule, Cylinder, Sphere, Torus};
pub use ops::{
    ExponentialSmoothMin, HardMin, Intersection, MinFunction, PolySmoothMin, Subtraction, Union,
};
pub use mods::{Elongate, ElongateMulti, Rotate, Round, Scale, Translate};
pub use util::{
    CentralDifferenceEstimator, EstimateNormal, EstimateNormalDefault, EstimateNormalFast,
    NormalEstimator, TetrahedralEstimator,
};
use core::marker::PhantomData;
use mathtypes::{Rotation, Vec};

verus! {

/// The core trait of this crate: an implementor can report the signed
/// distance from a point to its distance field.
///
/// `wf` is the well-formedness condition a value of the implementing type
/// must satisfy for `dist` to be meaningful; composite fields require it of
/// the fields they wrap. `spec_dist` is the mathematical distance function,
/// and `dist` is proved to compute exactly that.
pub trait SDF<T, V: Vec<T>>: Sized + Copy {
    open spec fn wf(self) -> bool {
        vstd::pervasive::arbitrary()
    }

    open spec fn spec_dist(self, p: V) -> T {
        vstd::pervasive::arbitrary()
    }

    /// Get distance from `p` to this SDF.
    fn dist(&self, p: V) -> (d: T)
        requires
            self.wf(),
        ensures
            d == self.spec_dist(p),
    ;

    /// Estimate the normals of this SDF using the default estimator, a
    /// [`CentralDifferenceEstimator`].
    ///
    /// `eps` is the amount to change the point by for each sample; ideally
    /// it is varied based on distance.
    fn normals(self, eps: T) -> (r: EstimateNormalDefault<T, V, Self>)
        ensures
            r.sdf == self,
            r.estimator.eps == eps,
    {
        EstimateNormal {
            sdf: self,
            estimator: CentralDifferenceEstimator::new(eps),
            marker_t: PhantomData,
            marker_v: PhantomData,
        }
    }

    /// Estimate the normals of this SDF using a fast [`TetrahedralEstimator`].
    /// Only works for 3D SDFs.
    ///
    /// `eps` is the amount to change the point by for each sample; ideally
    /// it is varied based on distance.
    fn normals_fast(self, eps: T) -> (r: EstimateNormalFast<T, V, Self>)
        ensures
            r.sdf == self,
            r.estimator.eps == eps,
    {
        EstimateNormal {
            sdf: self,
            estimator: TetrahedralEstimator::new(eps),
            marker_t: PhantomData,
            marker_v: PhantomData,
        }
    }

    /// Estimate the normals of this SDF using a provided [`NormalEstimator`].
    fn normals_with<E>(self, estimator: E) -> (r: EstimateNormal<T, V, Self, E>)
        ensures
            r.sdf == self,
            r.estimator == estimator,
    {
        EstimateNormal { sdf: self, estimator, marker_t: PhantomData, marker_v: PhantomData }
    }

    /// Get the union of this SDF and another one, using a standard hard
    /// minimum, creating a sharp crease at the boundary between the two
    /// fields.
    fn union<O>(self, other: O) -> (r: Union<T, Self, O, HardMin<T>>)
        ensures
            r.sdf1 == self,
            r.sdf2 == other,
    {
        Union::hard(self, other)
    }

    /// Get the union of this SDF and another one, blended together with a
    /// polynomial smooth minimum whose radius is the `softness` parameter.
    /// For even more control, see `union_with`.
    fn union_smooth<O>(self, other: O, softness: T) -> (r: Union<
        T,
        Self,
        O,
        PolySmoothMin<T>,
    >)
        ensures
            r.sdf1 == self,
            r.sdf2 == other,
            r.min_func.k == softness,
    {
        Union::smooth(self, other, softness)
    }

    /// Get the union of this SDF and another one, using a provided minimum
    /// function; see the documentation of [`MinFunction`] for more.
    fn union_with<O, M: MinFunction<T>>(self, other: O, min_function: M) -> (r: Union<
        T,
        Self,
        O,
        M,
    >)
        ensures
            r.sdf1 == self,
            r.sdf2 == other,
            r.min_func == min_function,
    {
        Union::new(self, other, min_function)
    }

    /// Get the subtraction of another SDF from this one, carving `other`'s
    /// volume out of this field. Note that this operation is *not*
    /// commutative: `a.subtract(b)` differs from `b.subtract(a)`.
    fn subtract<O>(self, other: O) -> (r: Subtraction<Self, O>)
        ensures
            r.base == self,
            r.cut == other,
    {
        Subtraction::new(self, other)
    }

    /// Get the intersection of this SDF and another one.
    fn intersection<O>(self, other: O) -> (r: Intersection<Self, O>)
        ensures
            r.sdf1 == self,
            r.sdf2 == other,
    {
        Intersection::new(self, other)
    }

    /// Round the corners of this SDF with a radius.
    fn round(self, radius: T) -> (r: Round<T, Self>)
        ensures
            r.sdf == self,
            r.radius == radius,
    {
        Round::new(self, radius)
    }

    /// Elongate this SDF along one axis. The elongation is symmetrical about
    /// the origin.
    fn elongate(self, axis: Axis, elongation: T) -> (r: Elongate<
        T,
        Self,
        <V as Vec<T>>::Dimension,
    >)
        ensures
            r.sdf == self,
            r.axis == axis,
            r.elongation == elongation,
    {
        Elongate::new(self, axis, elongation)
    }

    /// Elongate this SDF along all axes at once. The elongation is
    /// symmetrical about the origin.
    fn elongate_multi_axis(self, elongation: V) -> (r: ElongateMulti<
        V,
        Self,
        <V as Vec<T>>::Dimension,
    >)
        ensures
            r.sdf == self,
            r.elongation == elongation,
    {
        ElongateMulti::new(self, elongation)
    }

    /// Translate the SDF by a vector.
    fn translate(self, translation: V) -> (r: Translate<V, Self>)
        ensures
            r.sdf == self,
            r.translation == translation,
    {
        Translate::new(self, translation)
    }

    /// Rotate the SDF by a rotation.
    fn rotate<R: Rotation<V>>(self, rotation: R) -> (r: Rotate<R, Self>)
        ensures
            r.sdf == self,
            r.rotation == rotation,
    {
        Rotate::new(self, rotation)
    }

    /// Scale the SDF by a uniform scaling factor.
    fn scale(self, scaling: T) -> (r: Scale<T, Self>)
        ensures
            r.sdf == self,
            r.scaling == scaling,
    {
        Scale::new(self, scaling)
    }
}

} // verus!
