//! Modifiers that transform the space a field is sampled in, or its surface.

use vstd::prelude::*;

use core::marker::PhantomData;
use crate::mathtypes::{Arith, Clamp, Dim2D, Dim3D, MaxMin, Rotation, Vec, Vec2, Vec3, Zero, clamp_spec};
use crate::primitives::Axis;
use crate::SDF;

verus! {

/// Make a field have rounded outside edges: its surface is inset by
/// `radius`, rounding convex features.
#[derive(Clone, Copy, Debug)]
pub struct Round<T, S> {
    pub sdf: S,
    pub radius: T,
}

impl<T, S> Round<T, S> {
    pub fn new(sdf: S, radius: T) -> (r: Self)
        ensures
            r.sdf == sdf,
            r.radius == radius,
    {
        Round { sdf, radius }
    }
}

impl<T, V, S> SDF<T, V> for Round<T, S> where T: Arith, V: Vec<T>, S: SDF<T, V> {
    open spec fn wf(self) -> bool {
        self.sdf.wf()
    }

    open spec fn spec_dist(self, p: V) -> T {
        self.sdf.spec_dist(p).spec_sub(self.radius)
    }

    fn dist(&self, p: V) -> T {
        self.sdf.dist(p).sub(self.radius)
    }
}

/// Elongate a field along a single axis. The elongation is symmetrical about
/// the origin.
///
/// Elongating a 2D field along the Z axis is a contract violation: a
/// well-formed `Elongate` over a 2D vector never holds that axis, and an
/// unverified caller that builds one anyway aborts when sampling it.
pub struct Elongate<T, S, D> {
    pub sdf: S,
    pub axis: Axis,
    pub elongation: T,
    pub marker: PhantomData<D>,
}

impl<T: Copy, S: Copy, D> Clone for Elongate<T, S, D> {
    fn clone(&self) -> (r: Self)
        ensures
            r == *self,
    {
        Elongate { sdf: self.sdf, axis: self.axis, elongation: self.elongation, marker: PhantomData }
    }
}

impl<T: Copy, S: Copy, D> Copy for Elongate<T, S, D> {}

impl<T, S, D> Elongate<T, S, D> {
    /// Elongate `sdf` along `axis` by `elongation`.
    pub fn new(sdf: S, axis: Axis, elongation: T) -> (r: Self)
        ensures
            r.sdf == sdf,
            r.axis == axis,
            r.elongation == elongation,
    {
        Elongate { sdf, axis, elongation, marker: PhantomData }
    }
}

/// The unit vector along `axis` scaled by `amount`, in three dimensions.
pub open spec fn axis_vector3<T: Zero, V: Vec3<T>>(axis: Axis, amount: T) -> V {
    match axis {
        Axis::X => V::spec_new(amount, T::spec_zero(), T::spec_zero()),
        Axis::Y => V::spec_new(T::spec_zero(), amount, T::spec_zero()),
        Axis::Z => V::spec_new(T::spec_zero(), T::spec_zero(), amount),
    }
}

/// The point `p` pulled back toward the origin by the elongation vector `h`:
/// `p - clamp(p, -h, h)`.
pub open spec fn elongate_pullback<T, V: Vec<T>>(h: V, p: V) -> V {
    p.spec_sub(clamp_spec(p, h.spec_neg(), h))
}

impl<T, V, S> SDF<T, V> for Elongate<T, S, Dim3D> where
    T: Arith + Zero,
    V: Vec3<T>,
    S: SDF<T, V>,
 {
    open spec fn wf(self) -> bool {
        self.sdf.wf()
    }

    open spec fn spec_dist(self, p: V) -> T {
        self.sdf.spec_dist(elongate_pullback(axis_vector3(self.axis, self.elongation), p))
    }

    fn dist(&self, p: V) -> T {
        let h: V = match self.axis {
            Axis::X => V::new(self.elongation, T::zero(), T::zero()),
            Axis::Y => V::new(T::zero(), self.elongation, T::zero()),
            Axis::Z => V::new(T::zero(), T::zero(), self.elongation),
        };
        let q = p.sub(p.clamp(h.neg(), h));
        self.sdf.dist(q)
    }
}

/// The unit vector along `axis` scaled by `amount`, in two dimensions; the Z
/// axis has no two-dimensional counterpart, and gets an unconstrained value.
pub open spec fn axis_vector2<T: Zero, V: Vec2<T>>(axis: Axis, amount: T) -> V {
    match axis {
        Axis::X => V::spec_new(amount, T::spec_zero()),
        Axis::Y => V::spec_new(T::spec_zero(), amount),
        Axis::Z => vstd::pervasive::arbitrary(),
    }
}

impl<T, V, S> SDF<T, V> for Elongate<T, S, Dim2D> where
    T: Arith + Zero,
    V: Vec2<T>,
    S: SDF<T, V>,
 {
    open spec fn wf(self) -> bool {
        self.sdf.wf() && !(self.axis is Z)
    }

    open spec fn spec_dist(self, p: V) -> T {
        self.sdf.spec_dist(elongate_pullback(axis_vector2(self.axis, self.elongation), p))
    }

    fn dist(&self, p: V) -> T {
        let h: V = match self.axis {
            Axis::X => V::new(self.elongation, T::zero()),
            Axis::Y => V::new(T::zero(), self.elongation),
            Axis::Z => vstd::pervasive::unreached(),
        };
        let q = p.sub(p.clamp(h.neg(), h));
        self.sdf.dist(q)
    }
}

/// Elongate a field along all axes at once. With `q = abs(p) - elongation`
/// and `t = min(max-component(q), 0)`, the distance is
/// `sdf.dist(max(q, 0)) + t`: the correction term `t` keeps the distance
/// correct outside the elongated core.
pub struct ElongateMulti<V, S, D> {
    pub sdf: S,
    pub elongation: V,
    pub marker: PhantomData<D>,
}

impl<V: Copy, S: Copy, D> Clone for ElongateMulti<V, S, D> {
    fn clone(&self) -> (r: Self)
        ensures
            r == *self,
    {
        ElongateMulti { sdf: self.sdf, elongation: self.elongation, marker: PhantomData }
    }
}

impl<V: Copy, S: Copy, D> Copy for ElongateMulti<V, S, D> {}

impl<V, S, D> ElongateMulti<V, S, D> {
    pub fn new(sdf: S, elongation: V) -> (r: Self)
        ensures
            r.sdf == sdf,
            r.elongation == elongation,
    {
        ElongateMulti { sdf, elongation, marker: PhantomData }
    }
}

impl<T, V, S> SDF<T, V> for ElongateMulti<V, S, Dim3D> where
    T: Arith + MaxMin + Zero,
    V: Vec3<T>,
    S: SDF<T, V>,
 {
    open spec fn wf(self) -> bool {
        self.sdf.wf()
    }

    open spec fn spec_dist(self, p: V) -> T {
        let q = p.spec_abs().spec_sub(self.elongation);
        let t = q.spec_x().spec_max(q.spec_y()).spec_max(q.spec_z()).spec_min(T::spec_zero());
        self.sdf.spec_dist(q.spec_max(V::spec_zero())).spec_add(t)
    }

    fn dist(&self, p: V) -> T {
        let q = p.abs().sub(self.elongation);
        let t = q.x().max(q.y()).max(q.z()).min(T::zero());
        self.sdf.dist(q.max(V::zero())).add(t)
    }
}

impl<T, V, S> SDF<T, V> for ElongateMulti<V, S, Dim2D> where
    T: Arith + MaxMin + Zero,
    V: Vec2<T>,
    S: SDF<T, V>,
 {
    open spec fn wf(self) -> bool {
        self.sdf.wf()
    }

    open spec fn spec_dist(self, p: V) -> T {
        let q = p.spec_abs().spec_sub(self.elongation);
        let t = q.spec_x().spec_max(q.spec_y()).spec_min(T::spec_zero());
        self.sdf.spec_dist(q.spec_max(V::spec_zero())).spec_add(t)
    }

    fn dist(&self, p: V) -> T {
        let q = p.abs().sub(self.elongation);
        let t = q.x().max(q.y()).min(T::zero());
        self.sdf.dist(q.max(V::zero())).add(t)
    }
}

/// Translate a field by a vector: the field is sampled at `p - translation`.
#[derive(Clone, Copy, Debug)]
pub struct Translate<V, S> {
    pub sdf: S,
    pub translation: V,
}

impl<V, S> Translate<V, S> {
    pub fn new(sdf: S, translation: V) -> (r: Self)
        ensures
            r.sdf == sdf,
            r.translation == translation,
    {
        Translate { sdf, translation }
    }
}

impl<T, V, S> SDF<T, V> for Translate<V, S> where T: Copy, V: Vec<T>, S: SDF<T, V> {
    open spec fn wf(self) -> bool {
        self.sdf.wf()
    }

    open spec fn spec_dist(self, p: V) -> T {
        self.sdf.spec_dist(p.spec_sub(self.translation))
    }

    fn dist(&self, p: V) -> T {
        self.sdf.dist(p.sub(self.translation))
    }
}

/// Rotate a field by a rotation: the field is sampled at the point carried
/// into its local frame by [`Rotation::rotate_vec`].
#[derive(Clone, Copy, Debug)]
pub struct Rotate<R, S> {
    pub sdf: S,
    pub rotation: R,
}

impl<R, S> Rotate<R, S> {
    pub fn new(sdf: S, rotation: R) -> (r: Self)
        ensures
            r.sdf == sdf,
            r.rotation == rotation,
    {
        Rotate { sdf, rotation }
    }
}

impl<T, V, R, S> SDF<T, V> for Rotate<R, S> where
    T: Copy,
    V: Vec<T>,
    S: SDF<T, V>,
    R: Rotation<V>,
 {
    open spec fn wf(self) -> bool {
        self.sdf.wf()
    }

    open spec fn spec_dist(self, p: V) -> T {
        self.sdf.spec_dist(self.rotation.spec_rotate_vec(p))
    }

    fn dist(&self, p: V) -> T {
        self.sdf.dist(self.rotation.rotate_vec(p))
    }
}

/// Scale a field by a uniform factor: the distance is
/// `sdf.dist(p / scaling) * scaling`. A non-uniform factor cannot be
/// expressed here, and a non-uniform scale built from repeated uniform ones
/// would silently stop being a distance field.
#[derive(Clone, Copy, Debug)]
pub struct Scale<T, S> {
    pub sdf: S,
    pub scaling: T,
}

impl<T, S> Scale<T, S> {
    pub fn new(sdf: S, scaling: T) -> (r: Self)
        ensures
            r.sdf == sdf,
            r.scaling == scaling,
    {
        Scale { sdf, scaling }
    }
}

impl<T, V, S> SDF<T, V> for Scale<T, S> where T: Arith, V: Vec<T>, S: SDF<T, V> {
    open spec fn wf(self) -> bool {
        self.sdf.wf()
    }

    open spec fn spec_dist(self, p: V) -> T {
        self.sdf.spec_dist(p.spec_div_scalar(self.scaling)).spec_mul(self.scaling)
    }

    fn dist(&self, p: V) -> T {
        self.sdf.dist(p.div_scalar(self.scaling)).mul(self.scaling)
    }
}

/// Rounding insets the surface: the distance of the rounded field is the
/// distance of the wrapped field minus the radius, at every point.
pub proof fn lemma_round_dist<T: Arith, V: Vec<T>, S: SDF<T, V>>(r: Round<T, S>, p: V)
    ensures
        r.spec_dist(p) == r.sdf.spec_dist(p).spec_sub(r.radius),
{
}

/// Translation samples the wrapped field at the point moved back by the
/// offset, at every point.
pub proof fn lemma_translate_dist<T: Copy, V: Vec<T>, S: SDF<T, V>>(t: Translate<V, S>, p: V)
    ensures
        t.spec_dist(p) == t.sdf.spec_dist(p.spec_sub(t.translation)),
{
}

/// The translation round trip: sampling a translated field at a point moved
/// forward by the same offset gives the wrapped field's distance, whenever
/// the vector type cancels `(p + t) - t` (which saturating arithmetic does
/// away from its extremes).
pub proof fn lemma_translate_round_trip<T: Copy, V: Vec<T>, S: SDF<T, V>>(t: Translate<V, S>, p: V)
    requires
        p.spec_add(t.translation).spec_sub(t.translation) == p,
    ensures
        t.spec_dist(p.spec_add(t.translation)) == t.sdf.spec_dist(p),
{
}

/// Multi-axis elongation is symmetric about the origin: a point and its
/// negation give the same distance, for any vector type whose absolute value
/// ignores negation.
pub proof fn lemma_elongate_multi_symmetric3<T, V, S>(e: ElongateMulti<V, S, Dim3D>, p: V)
    where T: Arith + MaxMin + Zero, V: Vec3<T>, S: SDF<T, V>
    requires
        p.spec_neg().spec_abs() == p.spec_abs(),
    ensures
        e.spec_dist(p.spec_neg()) == e.spec_dist(p),
{
}

/// Multi-axis elongation is symmetric about the origin, in two dimensions.
pub proof fn lemma_elongate_multi_symmetric2<T, V, S>(e: ElongateMulti<V, S, Dim2D>, p: V)
    where T: Arith + MaxMin + Zero, V: Vec2<T>, S: SDF<T, V>
    requires
        p.spec_neg().spec_abs() == p.spec_abs(),
    ensures
        e.spec_dist(p.spec_neg()) == e.spec_dist(p),
{
}

} // verus!
