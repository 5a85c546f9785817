//! Operations that combine two fields into one.

use vstd::prelude::*;

use core::marker::PhantomData;
use crate::mathtypes::{Arith, Clamp, Exp2, Lerp, Log2, MaxMin, One, PointFive, Vec, Zero, clamp_spec, lerp_spec};
use crate::SDF;

verus! {

/// A strategy for taking the minimum of two distances. A plain minimum gives
/// the exact boolean union of two fields; smooth variants blend the two
/// fields where their distances are close.
pub trait MinFunction<T>: Sized + Copy {
    open spec fn spec_min(self, a: T, b: T) -> T {
        vstd::pervasive::arbitrary()
    }

    fn min(&self, a: T, b: T) -> (r: T)
        ensures
            r == self.spec_min(a, b),
    ;
}

/// Takes the absolute minimum of two values and returns it directly: a
/// standard min function, exact but with a crease where the fields meet.
pub struct HardMin<T> {
    pub marker: PhantomData<T>,
}

impl<T> HardMin<T> {
    pub fn new() -> (r: Self)
        ensures
            r == (HardMin::<T> { marker: PhantomData }),
    {
        HardMin { marker: PhantomData }
    }
}

impl<T> Clone for HardMin<T> {
    fn clone(&self) -> (r: Self)
        ensures
            r == *self,
    {
        HardMin { marker: PhantomData }
    }
}

impl<T> Copy for HardMin<T> {}

impl<T> Default for HardMin<T> {
    fn default() -> (r: Self)
        ensures
            r == (HardMin::<T> { marker: PhantomData }),
    {
        HardMin { marker: PhantomData }
    }
}

impl<T: MaxMin> MinFunction<T> for HardMin<T> {
    open spec fn spec_min(self, a: T, b: T) -> T {
        a.spec_min(b)
    }

    fn min(&self, a: T, b: T) -> T {
        a.min(b)
    }
}

/// The exponential smooth minimum `-log2(2^(-k*a) + 2^(-k*b)) / k`.
///
/// Takes the minimum of two values, smoothing between them when they are
/// close; `k` controls the radius of the smoothing, and a larger `k` gives a
/// sharper blend. A large `k * a` can overflow the exponential; bounding `k`
/// and the operand magnitudes is the caller's business.
#[derive(Clone, Copy, Debug)]
pub struct ExponentialSmoothMin<T> {
    pub k: T,
}

impl<T> ExponentialSmoothMin<T> {
    pub fn new(k: T) -> (r: Self)
        ensures
            r.k == k,
    {
        ExponentialSmoothMin { k }
    }
}

/// The exponential smooth minimum of `a` and `b` with sharpness `k`.
pub open spec fn exponential_smooth_min_spec<T: Arith + Exp2 + Log2>(k: T, a: T, b: T) -> T {
    let res = k.spec_neg().spec_mul(a).spec_exp2().spec_add(k.spec_neg().spec_mul(b).spec_exp2());
    res.spec_log2().spec_neg().spec_div(k)
}

impl<T> MinFunction<T> for ExponentialSmoothMin<T> where T: Arith + Exp2 + Log2 {
    open spec fn spec_min(self, a: T, b: T) -> T {
        exponential_smooth_min_spec(self.k, a, b)
    }

    fn min(&self, a: T, b: T) -> T {
        let res = self.k.neg().mul(a).exp2().add(self.k.neg().mul(b).exp2());
        res.log2().neg().div(self.k)
    }
}

/// The polynomial smooth minimum: with
/// `h = clamp(0.5 + 0.5 * (b - a) / k, 0, 1)`, it is
/// `lerp(b, a, h) - k * h * (1 - h)`.
///
/// Takes the minimum of two values, smoothing between them when they are
/// close; `k` controls the radius of the smoothing. `k = 0` divides by zero
/// and must be avoided by construction.
#[derive(Clone, Copy, Debug)]
pub struct PolySmoothMin<T> {
    pub k: T,
}

impl<T> PolySmoothMin<T> {
    pub fn new(k: T) -> (r: Self)
        ensures
            r.k == k,
    {
        PolySmoothMin { k }
    }
}

/// The polynomial smooth minimum of `a` and `b` with smoothing radius `k`.
pub open spec fn poly_smooth_min_spec<T: Arith + MaxMin + Zero + One + PointFive>(
    k: T,
    a: T,
    b: T,
) -> T {
    let t = T::spec_point_five().spec_add(T::spec_point_five().spec_mul(b.spec_sub(a)).spec_div(k));
    let h = clamp_spec(t, T::spec_zero(), T::spec_one());
    lerp_spec(b, a, h).spec_sub(k.spec_mul(h).spec_mul(T::spec_one().spec_sub(h)))
}

impl<T> MinFunction<T> for PolySmoothMin<T> where
    T: Arith + MaxMin + Zero + One + PointFive + Clamp + Lerp,
 {
    open spec fn spec_min(self, a: T, b: T) -> T {
        poly_smooth_min_spec(self.k, a, b)
    }

    fn min(&self, a: T, b: T) -> T {
        let t = T::point_five().add(T::point_five().mul(b.sub(a)).div(self.k));
        let h = t.clamp(T::zero(), T::one());
        b.lerp(a, h).sub(self.k.mul(h).mul(T::one().sub(h)))
    }
}

/// The union of two fields, blended by a [`MinFunction`].
pub struct Union<T, S1, S2, M> {
    pub sdf1: S1,
    pub sdf2: S2,
    pub min_func: M,
    pub marker: PhantomData<T>,
}

impl<T, S1: Copy, S2: Copy, M: Copy> Clone for Union<T, S1, S2, M> {
    fn clone(&self) -> (r: Self)
        ensures
            r == *self,
    {
        Union { sdf1: self.sdf1, sdf2: self.sdf2, min_func: self.min_func, marker: PhantomData }
    }
}

impl<T, S1: Copy, S2: Copy, M: Copy> Copy for Union<T, S1, S2, M> {}

impl<T, S1, S2> Union<T, S1, S2, HardMin<T>> {
    /// The union of `sdf1` and `sdf2` under a hard minimum.
    pub fn hard(sdf1: S1, sdf2: S2) -> (r: Self)
        ensures
            r.sdf1 == sdf1,
            r.sdf2 == sdf2,
    {
        Union { sdf1, sdf2, min_func: HardMin::new(), marker: PhantomData }
    }
}

impl<T, S1, S2> Union<T, S1, S2, PolySmoothMin<T>> {
    /// The union of `sdf1` and `sdf2`, blended with the polynomial smooth
    /// minimum of radius `smoothness`.
    pub fn smooth(sdf1: S1, sdf2: S2, smoothness: T) -> (r: Self)
        ensures
            r.sdf1 == sdf1,
            r.sdf2 == sdf2,
            r.min_func.k == smoothness,
    {
        Union { sdf1, sdf2, min_func: PolySmoothMin::new(smoothness), marker: PhantomData }
    }
}

impl<T, S1, S2, M> Union<T, S1, S2, M> {
    /// The union of `sdf1` and `sdf2` under the provided min function.
    pub fn new(sdf1: S1, sdf2: S2, min_func: M) -> (r: Self)
        ensures
            r.sdf1 == sdf1,
            r.sdf2 == sdf2,
            r.min_func == min_func,
    {
        Union { sdf1, sdf2, min_func, marker: PhantomData }
    }
}

impl<T, V, S1, S2, M> SDF<T, V> for Union<T, S1, S2, M> where
    T: Copy,
    V: Vec<T>,
    S1: SDF<T, V>,
    S2: SDF<T, V>,
    M: MinFunction<T>,
 {
    open spec fn wf(self) -> bool {
        self.sdf1.wf() && self.sdf2.wf()
    }

    open spec fn spec_dist(self, p: V) -> T {
        self.min_func.spec_min(self.sdf1.spec_dist(p), self.sdf2.spec_dist(p))
    }

    fn dist(&self, p: V) -> T {
        self.min_func.min(self.sdf1.dist(p), self.sdf2.dist(p))
    }
}

/// The subtraction of two fields: `cut` carved out of `base`. This operation
/// is *not* commutative.
#[derive(Clone, Copy, Debug)]
pub struct Subtraction<S1, S2> {
    pub base: S1,
    pub cut: S2,
}

impl<S1, S2> Subtraction<S1, S2> {
    /// Carve `cut`'s volume out of `base`. Not commutative.
    pub fn new(base: S1, cut: S2) -> (r: Self)
        ensures
            r.base == base,
            r.cut == cut,
    {
        Subtraction { base, cut }
    }
}

impl<T, V, S1, S2> SDF<T, V> for Subtraction<S1, S2> where
    T: Arith + MaxMin,
    V: Vec<T>,
    S1: SDF<T, V>,
    S2: SDF<T, V>,
 {
    open spec fn wf(self) -> bool {
        self.base.wf() && self.cut.wf()
    }

    open spec fn spec_dist(self, p: V) -> T {
        self.cut.spec_dist(p).spec_neg().spec_max(self.base.spec_dist(p))
    }

    fn dist(&self, p: V) -> T {
        self.cut.dist(p).neg().max(self.base.dist(p))
    }
}

/// The intersection of two fields.
#[derive(Clone, Copy, Debug)]
pub struct Intersection<S1, S2> {
    pub sdf1: S1,
    pub sdf2: S2,
}

impl<S1, S2> Intersection<S1, S2> {
    /// The intersection of two fields.
    pub fn new(sdf1: S1, sdf2: S2) -> (r: Self)
        ensures
            r.sdf1 == sdf1,
            r.sdf2 == sdf2,
    {
        Intersection { sdf1, sdf2 }
    }
}

impl<T, V, S1, S2> SDF<T, V> for Intersection<S1, S2> where
    T: MaxMin,
    V: Vec<T>,
    S1: SDF<T, V>,
    S2: SDF<T, V>,
 {
    open spec fn wf(self) -> bool {
        self.sdf1.wf() && self.sdf2.wf()
    }

    open spec fn spec_dist(self, p: V) -> T {
        self.sdf1.spec_dist(p).spec_max(self.sdf2.spec_dist(p))
    }

    fn dist(&self, p: V) -> T {
        self.sdf1.dist(p).max(self.sdf2.dist(p))
    }
}

/// The union of two fields under a hard minimum is the minimum of the two
/// distances, at every point.
pub proof fn lemma_union_hard_min<T: MaxMin + Copy, V: Vec<T>, S1: SDF<T, V>, S2: SDF<T, V>>(
    u: Union<T, S1, S2, HardMin<T>>,
    p: V,
)
    ensures
        u.spec_dist(p) == u.sdf1.spec_dist(p).spec_min(u.sdf2.spec_dist(p)),
{
}

/// The intersection of two fields is the maximum of the two distances, at
/// every point.
pub proof fn lemma_intersection_max<T: MaxMin, V: Vec<T>, S1: SDF<T, V>, S2: SDF<T, V>>(
    i: Intersection<S1, S2>,
    p: V,
)
    ensures
        i.spec_dist(p) == i.sdf1.spec_dist(p).spec_max(i.sdf2.spec_dist(p)),
{
}

/// Subtraction carves `cut` out of `base`: its distance is the maximum of
/// the negated `cut` distance and the `base` distance, at every point.
pub proof fn lemma_subtraction_max<T: Arith + MaxMin, V: Vec<T>, S1: SDF<T, V>, S2: SDF<T, V>>(
    s: Subtraction<S1, S2>,
    p: V,
)
    ensures
        s.spec_dist(p) == s.cut.spec_dist(p).spec_neg().spec_max(s.base.spec_dist(p)),
{
}

} // verus!
