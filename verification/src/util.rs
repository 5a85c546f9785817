//! Utilities that are helpful when using fields in computer graphics
//! applications, chiefly estimating surface normals from the gradient of a
//! field.

use vstd::prelude::*;

use core::marker::PhantomData;
use crate::mathtypes::{Arith, Dim2D, Dim3D, One, Vec, Vec2, Vec3};
use crate::SDF;

verus! {

/// Estimators provide a way to approximate the surface normal of the field
/// `sdf` at the point `p`, as a normalized gradient estimate.
pub trait NormalEstimator<T, V: Vec<T>, S: SDF<T, V>>: Sized {
    open spec fn spec_estimate_normal(self, sdf: S, p: V) -> V {
        vstd::pervasive::arbitrary()
    }

    fn estimate_normal(&self, sdf: S, p: V) -> (n: V)
        requires
            sdf.wf(),
        ensures
            n == self.spec_estimate_normal(sdf, p),
    ;
}

/// Estimates the normal of a field with a provided estimator, by default a
/// [`CentralDifferenceEstimator`], which works for both 2D and 3D fields.
pub struct EstimateNormal<
    T,
    V: Vec<T>,
    S,
    E = CentralDifferenceEstimator<T, V, <V as Vec<T>>::Dimension>,
> {
    pub sdf: S,
    pub estimator: E,
    pub marker_t: PhantomData<T>,
    pub marker_v: PhantomData<V>,
}

impl<T, V, S, E> EstimateNormal<T, V, S, E> where
    E: NormalEstimator<T, V, S> + Default,
    S: SDF<T, V>,
    V: Vec<T>,
 {
    /// Creates a new `EstimateNormal` over `sdf` using the default value of
    /// the estimator type.
    pub fn new_default(sdf: S) -> (r: Self)
        ensures
            r.sdf == sdf,
            call_ensures(E::default, (), r.estimator),
    {
        EstimateNormal {
            sdf,
            estimator: E::default(),
            marker_t: PhantomData,
            marker_v: PhantomData,
        }
    }
}

impl<T, V, S, E> EstimateNormal<T, V, S, E> where
    E: NormalEstimator<T, V, S>,
    S: SDF<T, V>,
    V: Vec<T>,
 {
    /// Creates a new `EstimateNormal` over `sdf` with a provided estimator.
    pub fn new(sdf: S, estimator: E) -> (r: Self)
        ensures
            r.sdf == sdf,
            r.estimator == estimator,
    {
        EstimateNormal { sdf, estimator, marker_t: PhantomData, marker_v: PhantomData }
    }

    /// Estimates the normal of the owned field at point `p`.
    pub fn normal_at(&self, p: V) -> (n: V)
        requires
            self.sdf.wf(),
        ensures
            n == self.estimator.spec_estimate_normal(self.sdf, p),
    {
        self.estimator.estimate_normal(self.sdf, p)
    }
}

/// Estimates the normal of a field by the central-difference approximation
/// of its gradient: in each dimension the field is sampled once slightly
/// above (by `eps`) and once slightly below the point, and the differences
/// are assembled into a vector and normalized. Robust and accurate, and
/// works in two and three dimensions, at the cost of `2 * dimension`
/// samples; see [`TetrahedralEstimator`] for a faster 3D-only alternative.
pub struct CentralDifferenceEstimator<T, V, D> {
    pub eps: T,
    pub marker_v: PhantomData<V>,
    pub marker_d: PhantomData<D>,
}

impl<T: Copy, V, D> Clone for CentralDifferenceEstimator<T, V, D> {
    fn clone(&self) -> (r: Self)
        ensures
            r == *self,
    {
        CentralDifferenceEstimator { eps: self.eps, marker_v: PhantomData, marker_d: PhantomData }
    }
}

impl<T: Copy, V, D> Copy for CentralDifferenceEstimator<T, V, D> {}

impl<T, V: Vec<T>> CentralDifferenceEstimator<T, V, <V as Vec<T>>::Dimension> {
    /// Creates a `CentralDifferenceEstimator` with a given epsilon value.
    pub fn new(eps: T) -> (r: Self)
        ensures
            r.eps == eps,
    {
        CentralDifferenceEstimator { eps, marker_v: PhantomData, marker_d: PhantomData }
    }
}

/// The central-difference gradient estimate of `sdf` at `p` in three
/// dimensions: per-axis differences of samples at `p +- eps`, normalized.
pub open spec fn central_difference3_spec<T: Arith, V: Vec3<T>, S: SDF<T, V>>(
    eps: T,
    sdf: S,
    p: V,
) -> V {
    V::spec_new(
        sdf.spec_dist(V::spec_new(p.spec_x().spec_add(eps), p.spec_y(), p.spec_z())).spec_sub(
            sdf.spec_dist(V::spec_new(p.spec_x().spec_sub(eps), p.spec_y(), p.spec_z())),
        ),
        sdf.spec_dist(V::spec_new(p.spec_x(), p.spec_y().spec_add(eps), p.spec_z())).spec_sub(
            sdf.spec_dist(V::spec_new(p.spec_x(), p.spec_y().spec_sub(eps), p.spec_z())),
        ),
        sdf.spec_dist(V::spec_new(p.spec_x(), p.spec_y(), p.spec_z().spec_add(eps))).spec_sub(
            sdf.spec_dist(V::spec_new(p.spec_x(), p.spec_y(), p.spec_z().spec_sub(eps))),
        ),
    ).spec_normalized()
}

impl<T, V, S> NormalEstimator<T, V, S> for CentralDifferenceEstimator<T, V, Dim3D> where
    T: Arith,
    V: Vec3<T>,
    S: SDF<T, V>,
 {
    open spec fn spec_estimate_normal(self, sdf: S, p: V) -> V {
        central_difference3_spec(self.eps, sdf, p)
    }

    fn estimate_normal(&self, sdf: S, p: V) -> V {
        let eps = self.eps;
        let dx = sdf.dist(V::new(p.x().add(eps), p.y(), p.z())).sub(
            sdf.dist(V::new(p.x().sub(eps), p.y(), p.z())),
        );
        let dy = sdf.dist(V::new(p.x(), p.y().add(eps), p.z())).sub(
            sdf.dist(V::new(p.x(), p.y().sub(eps), p.z())),
        );
        let dz = sdf.dist(V::new(p.x(), p.y(), p.z().add(eps))).sub(
            sdf.dist(V::new(p.x(), p.y(), p.z().sub(eps))),
        );
        V::new(dx, dy, dz).normalized()
    }
}

/// The central-difference gradient estimate of `sdf` at `p` in two
/// dimensions: per-axis differences of samples at `p +- eps`, normalized.
pub open spec fn central_difference2_spec<T: Arith, V: Vec2<T>, S: SDF<T, V>>(
    eps: T,
    sdf: S,
    p: V,
) -> V {
    V::spec_new(
        sdf.spec_dist(V::spec_new(p.spec_x().spec_add(eps), p.spec_y())).spec_sub(
            sdf.spec_dist(V::spec_new(p.spec_x().spec_sub(eps), p.spec_y())),
        ),
        sdf.spec_dist(V::spec_new(p.spec_x(), p.spec_y().spec_add(eps))).spec_sub(
            sdf.spec_dist(V::spec_new(p.spec_x(), p.spec_y().spec_sub(eps))),
        ),
    ).spec_normalized()
}

impl<T, V, S> NormalEstimator<T, V, S> for CentralDifferenceEstimator<T, V, Dim2D> where
    T: Arith,
    V: Vec2<T>,
    S: SDF<T, V>,
 {
    open spec fn spec_estimate_normal(self, sdf: S, p: V) -> V {
        central_difference2_spec(self.eps, sdf, p)
    }

    fn estimate_normal(&self, sdf: S, p: V) -> V {
        let eps = self.eps;
        let dx = sdf.dist(V::new(p.x().add(eps), p.y())).sub(
            sdf.dist(V::new(p.x().sub(eps), p.y())),
        );
        let dy = sdf.dist(V::new(p.x(), p.y().add(eps))).sub(
            sdf.dist(V::new(p.x(), p.y().sub(eps))),
        );
        V::new(dx, dy).normalized()
    }
}

/// Estimates the normal of a 3D field by sampling it at four points offset
/// from `p` along the fixed tetrahedral direction set `(1, -1, -1)`,
/// `(-1, -1, 1)`, `(-1, 1, -1)`, `(1, 1, 1)`, weighting each sample by its
/// own direction vector, summing and normalizing. Four samples instead of
/// six makes it slightly faster than [`CentralDifferenceEstimator`], at a
/// small cost in robustness. Each direction serves as the offset for its own
/// sample; the pairing matters.
pub struct TetrahedralEstimator<T, V> {
    pub eps: T,
    pub marker_v: PhantomData<V>,
}

impl<T: Copy, V> Clone for TetrahedralEstimator<T, V> {
    fn clone(&self) -> (r: Self)
        ensures
            r == *self,
    {
        TetrahedralEstimator { eps: self.eps, marker_v: PhantomData }
    }
}

impl<T: Copy, V> Copy for TetrahedralEstimator<T, V> {}

impl<T, V: Vec<T>> TetrahedralEstimator<T, V> {
    /// Creates a `TetrahedralEstimator` with a given epsilon value.
    pub fn new(eps: T) -> (r: Self)
        ensures
            r.eps == eps,
    {
        TetrahedralEstimator { eps, marker_v: PhantomData }
    }
}

/// The tetrahedral gradient estimate of `sdf` at `p`: each of the four
/// direction vectors is scaled by the field's distance at `p` plus that same
/// direction scaled by `eps`, and the four terms are summed and normalized.
pub open spec fn tetrahedral_spec<T: Arith + One, V: Vec3<T>, S: SDF<T, V>>(
    eps: T,
    sdf: S,
    p: V,
) -> V {
    let xyy = V::spec_new(T::spec_one(), T::spec_one().spec_neg(), T::spec_one().spec_neg());
    let yyx = V::spec_new(T::spec_one().spec_neg(), T::spec_one().spec_neg(), T::spec_one());
    let yxy = V::spec_new(T::spec_one().spec_neg(), T::spec_one(), T::spec_one().spec_neg());
    let xxx = V::spec_one();
    xyy.spec_mul_scalar(sdf.spec_dist(p.spec_add(xyy.spec_mul_scalar(eps)))).spec_add(
        yyx.spec_mul_scalar(sdf.spec_dist(p.spec_add(yyx.spec_mul_scalar(eps)))),
    ).spec_add(
        yxy.spec_mul_scalar(sdf.spec_dist(p.spec_add(yxy.spec_mul_scalar(eps)))),
    ).spec_add(
        xxx.spec_mul_scalar(sdf.spec_dist(p.spec_add(xxx.spec_mul_scalar(eps)))),
    ).spec_normalized()
}

impl<T, V, S> NormalEstimator<T, V, S> for TetrahedralEstimator<T, V> where
    T: Arith + One,
    V: Vec3<T>,
    S: SDF<T, V>,
 {
    open spec fn spec_estimate_normal(self, sdf: S, p: V) -> V {
        tetrahedral_spec(self.eps, sdf, p)
    }

    fn estimate_normal(&self, sdf: S, p: V) -> V {
        let xyy: V = V::new(T::one(), T::one().neg(), T::one().neg());
        let yyx: V = V::new(T::one().neg(), T::one().neg(), T::one());
        let yxy: V = V::new(T::one().neg(), T::one(), T::one().neg());
        let xxx: V = V::one();
        xyy.mul_scalar(sdf.dist(p.add(xyy.mul_scalar(self.eps)))).add(
            yyx.mul_scalar(sdf.dist(p.add(yyx.mul_scalar(self.eps)))),
        ).add(
            yxy.mul_scalar(sdf.dist(p.add(yxy.mul_scalar(self.eps)))),
        ).add(
            xxx.mul_scalar(sdf.dist(p.add(xxx.mul_scalar(self.eps)))),
        ).normalized()
    }
}

/// An `EstimateNormal` over the default central-difference estimator.
pub type EstimateNormalDefault<T, V, S> = EstimateNormal<
    T,
    V,
    S,
    CentralDifferenceEstimator<T, V, <V as Vec<T>>::Dimension>,
>;

/// An `EstimateNormal` over the fast tetrahedral estimator.
pub type EstimateNormalFast<T, V, S> = EstimateNormal<T, V, S, TetrahedralEstimator<T, V>>;

} // verus!
