//! A collection of primitive fields that may be modified using the types in
//! `mods` or combined using the types in `ops`. These primitives are always
//! centered around the origin: the point being sampled must be transformed
//! into primitive-local space first, and `mods` provides the modifiers to do
//! so. Translation and rotation of the input point work properly; scaling
//! modifies the Euclidean space and only the uniform case keeps the distance
//! property.

use vstd::prelude::*;

use crate::mathtypes::{Arith, Clamp, MaxMin, One, Vec, Vec2, Vec3, Zero, clamp_spec};
use crate::SDF;

verus! {

/// A sphere centered at origin with a radius.
#[derive(Clone, Copy, Debug)]
pub struct Sphere<T> {
    pub radius: T,
}

impl<T> Sphere<T> {
    pub fn new(radius: T) -> (r: Self)
        ensures
            r.radius == radius,
    {
        Sphere { radius }
    }
}

/// The distance from `p` to a sphere of radius `radius` around the origin:
/// `|p| - radius`.
pub open spec fn sphere_dist<T: Arith, V: Vec<T>>(radius: T, p: V) -> T {
    p.spec_magnitude().spec_sub(radius)
}

impl<T, V> SDF<T, V> for Sphere<T> where T: Arith, V: Vec3<T> {
    open spec fn wf(self) -> bool {
        true
    }

    open spec fn spec_dist(self, p: V) -> T {
        sphere_dist(self.radius, p)
    }

    fn dist(&self, p: V) -> T {
        p.magnitude().sub(self.radius)
    }
}

/// A sphere's distance is exactly the magnitude of the sample point minus
/// the radius, at every point.
pub proof fn lemma_sphere_dist<T: Arith, V: Vec3<T>>(s: Sphere<T>, p: V)
    ensures
        s.spec_dist(p) == p.spec_magnitude().spec_sub(s.radius),
{
}

/// A box centered at origin with axis-aligned half-extents.
#[derive(Clone, Copy, Debug)]
pub struct Box<V> {
    pub dims: V,
}

impl<V> Box<V> {
    pub fn new(dims: V) -> (r: Self)
        ensures
            r.dims == dims,
    {
        Box { dims }
    }
}

/// The distance from `p` to a box with half-extents `dims`: with
/// `q = abs(p) - dims`, it is `|max(q, 0)| + min(max(q.x, q.y, q.z), 0)`.
pub open spec fn box_dist<T: Arith + MaxMin + Zero, V: Vec3<T>>(dims: V, p: V) -> T {
    let q = p.spec_abs().spec_sub(dims);
    q.spec_max(V::spec_zero()).spec_magnitude().spec_add(
        q.spec_x().spec_max(q.spec_y()).spec_max(q.spec_z()).spec_min(T::spec_zero()),
    )
}

impl<T, V> SDF<T, V> for Box<V> where T: Arith + MaxMin + Zero, V: Vec3<T> {
    open spec fn wf(self) -> bool {
        true
    }

    open spec fn spec_dist(self, p: V) -> T {
        box_dist(self.dims, p)
    }

    fn dist(&self, p: V) -> T {
        let q = p.abs().sub(self.dims);
        q.max(V::zero()).magnitude().add(q.x().max(q.y()).max(q.z()).min(T::zero()))
    }
}

/// A torus that sits on the XZ plane. `thickness` is the radius of the
/// wrapped cylinder while `radius` is the radius of the donut shape.
#[derive(Clone, Copy, Debug)]
pub struct Torus<T> {
    pub radius: T,
    pub thickness: T,
}

impl<T> Torus<T> {
    pub fn new(radius: T, thickness: T) -> (r: Self)
        ensures
            r.radius == radius,
            r.thickness == thickness,
    {
        Torus { radius, thickness }
    }
}

/// The distance from `p` to a torus on the XZ plane: with
/// `q = (|p.xz| - thickness, p.y)`, it is `|q| - radius`.
pub open spec fn torus_dist<T: Arith, V: Vec3<T>>(radius: T, thickness: T, p: V) -> T where V::Vec2: Vec2<T> {
    let q = <V::Vec2 as Vec2<T>>::spec_new(
        <V::Vec2 as Vec2<T>>::spec_new(p.spec_x(), p.spec_z()).spec_magnitude().spec_sub(thickness),
        p.spec_y(),
    );
    q.spec_magnitude().spec_sub(radius)
}

impl<T, V> SDF<T, V> for Torus<T> where T: Arith, V: Vec3<T>, V::Vec2: Vec2<T> {
    open spec fn wf(self) -> bool {
        true
    }

    open spec fn spec_dist(self, p: V) -> T {
        torus_dist(self.radius, self.thickness, p)
    }

    fn dist(&self, p: V) -> T {
        let ring = <V::Vec2 as Vec2<T>>::new(p.x(), p.z()).magnitude().sub(self.thickness);
        let q = <V::Vec2 as Vec2<T>>::new(ring, p.y());
        q.magnitude().sub(self.radius)
    }
}

/// One of the three coordinate axes.
#[derive(Clone, Copy, Debug, PartialEq, Eq, Structural)]
pub enum Axis {
    X,
    Y,
    Z,
}

/// An infinite cylinder extending along an axis.
#[derive(Clone, Copy, Debug)]
pub struct Cylinder<T> {
    pub radius: T,
    pub axis: Axis,
}

impl<T> Cylinder<T> {
    pub fn new(radius: T, axis: Axis) -> (r: Self)
        ensures
            r.radius == radius,
            r.axis == axis,
    {
        Cylinder { radius, axis }
    }
}

/// The two coordinates of `p` perpendicular to `axis`.
pub open spec fn perp_coords<T, V: Vec3<T>>(axis: Axis, p: V) -> (T, T) {
    match axis {
        Axis::X => (p.spec_y(), p.spec_z()),
        Axis::Y => (p.spec_x(), p.spec_z()),
        Axis::Z => (p.spec_x(), p.spec_y()),
    }
}

/// The distance from `p` to an infinite cylinder along `axis`: the distance
/// from `p`'s projection onto the perpendicular plane to a disc of radius
/// `radius`.
pub open spec fn cylinder_dist<T: Arith, V: Vec3<T>>(radius: T, axis: Axis, p: V) -> T where V::Vec2: Vec2<T> {
    let ab = perp_coords(axis, p);
    <V::Vec2 as Vec2<T>>::spec_new(ab.0, ab.1).spec_magnitude().spec_sub(radius)
}

impl<T, V> SDF<T, V> for Cylinder<T> where T: Arith, V: Vec3<T>, V::Vec2: Vec2<T> {
    open spec fn wf(self) -> bool {
        true
    }

    open spec fn spec_dist(self, p: V) -> T {
        cylinder_dist(self.radius, self.axis, p)
    }

    fn dist(&self, p: V) -> T {
        let (a, b) = match self.axis {
            Axis::X => (p.y(), p.z()),
            Axis::Y => (p.x(), p.z()),
            Axis::Z => (p.x(), p.y()),
        };
        <V::Vec2 as Vec2<T>>::new(a, b).magnitude().sub(self.radius)
    }
}

/// A capped cylinder extending along an axis.
#[derive(Clone, Copy, Debug)]
pub struct CappedCylinder<T> {
    pub radius: T,
    pub height: T,
    pub axis: Axis,
}

impl<T> CappedCylinder<T> {
    pub fn new(radius: T, height: T, axis: Axis) -> (r: Self)
        ensures
            r.radius == radius,
            r.height == height,
            r.axis == axis,
    {
        CappedCylinder { radius, height, axis }
    }
}

/// The coordinate of `p` along `axis`.
pub open spec fn axial_coord<T, V: Vec3<T>>(axis: Axis, p: V) -> T {
    match axis {
        Axis::X => p.spec_x(),
        Axis::Y => p.spec_y(),
        Axis::Z => p.spec_z(),
    }
}

/// The distance from `p` to a cylinder of radius `radius` capped at
/// half-height `height` along `axis`: with `d = abs((|p perp|, p along)) -
/// (radius, height)`, it is `min(max(d.x, d.y), 0) + |max(d, 0)|`.
pub open spec fn capped_cylinder_dist<T: Arith + MaxMin + Zero, V: Vec3<T>>(
    radius: T,
    height: T,
    axis: Axis,
    p: V,
) -> T where V::Vec2: Vec2<T> {
    let ab = perp_coords(axis, p);
    let c = axial_coord(axis, p);
    let d = <V::Vec2 as Vec2<T>>::spec_new(
        <V::Vec2 as Vec2<T>>::spec_new(ab.0, ab.1).spec_magnitude(),
        c,
    ).spec_abs().spec_sub(<V::Vec2 as Vec2<T>>::spec_new(radius, height));
    d.spec_x().spec_max(d.spec_y()).spec_min(T::spec_zero()).spec_add(
        d.spec_max(<V::Vec2 as Zero>::spec_zero()).spec_magnitude(),
    )
}

impl<T, V> SDF<T, V> for CappedCylinder<T> where T: Arith + MaxMin + Zero, V: Vec3<T>, V::Vec2: Vec2<T> {
    open spec fn wf(self) -> bool {
        true
    }

    open spec fn spec_dist(self, p: V) -> T {
        capped_cylinder_dist(self.radius, self.height, self.axis, p)
    }

    fn dist(&self, p: V) -> T {
        let (a, b, c) = match self.axis {
            Axis::X => (p.y(), p.z(), p.x()),
            Axis::Y => (p.x(), p.z(), p.y()),
            Axis::Z => (p.x(), p.y(), p.z()),
        };
        let ring = <V::Vec2 as Vec2<T>>::new(a, b).magnitude();
        let d = <V::Vec2 as Vec2<T>>::new(ring, c).abs().sub(
            <V::Vec2 as Vec2<T>>::new(self.radius, self.height),
        );
        d.x().max(d.y()).min(T::zero()).add(
            d.max(<V::Vec2 as Zero>::zero()).magnitude(),
        )
    }
}

/// A capsule extending from `a` to `b` with radius `radius`.
///
/// A degenerate capsule whose endpoints coincide divides by a zero dot
/// product; what that yields is the scalar type's business, and the caller's
/// responsibility to avoid.
#[derive(Clone, Copy, Debug)]
pub struct Capsule<T, V> {
    pub a: V,
    pub b: V,
    pub radius: T,
}

impl<T, V> Capsule<T, V> {
    pub fn new(a: V, b: V, radius: T) -> (r: Self)
        ensures
            r.a == a,
            r.b == b,
            r.radius == radius,
    {
        Capsule { a, b, radius }
    }
}

/// The distance from `p` to a capsule from `a` to `b`: project `p - a` onto
/// the segment `b - a`, clamp the projection factor to `[0, 1]`, and take
/// the distance from the closest point of the segment, minus `radius`.
pub open spec fn capsule_dist<T: Arith + MaxMin + Zero + One, V: Vec3<T>>(
    a: V,
    b: V,
    radius: T,
    p: V,
) -> T {
    let pa = p.spec_sub(a);
    let ba = b.spec_sub(a);
    let t = pa.spec_dot(ba).spec_div(ba.spec_dot(ba));
    let h = clamp_spec(t, T::spec_zero(), T::spec_one());
    pa.spec_sub(ba.spec_mul_scalar(h)).spec_magnitude().spec_sub(radius)
}

impl<T, V> SDF<T, V> for Capsule<T, V> where
    T: Arith + MaxMin + Zero + One + Clamp,
    V: Vec3<T>,
 {
    open spec fn wf(self) -> bool {
        true
    }

    open spec fn spec_dist(self, p: V) -> T {
        capsule_dist(self.a, self.b, self.radius, p)
    }

    fn dist(&self, p: V) -> T {
        let pa = p.sub(self.a);
        let ba = self.b.sub(self.a);
        let t = pa.dot(ba).div(ba.dot(ba));
        let h = t.clamp(T::zero(), T::one());
        pa.sub(ba.mul_scalar(h)).magnitude().sub(self.radius)
    }
}

} // verus!
