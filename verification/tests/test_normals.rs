use sdfu::fixed::{Fixed, Fixed3};
use sdfu::mathtypes::{Dim3D, Vec3};
use sdfu::util::EstimateNormalDefault;
use sdfu::{CentralDifferenceEstimator, EstimateNormal, Sphere, TetrahedralEstimator, SDF};

fn fx(i: i64) -> Fixed {
    Fixed::from_int(i)
}

fn v3(x: i64, y: i64, z: i64) -> Fixed3 {
    Fixed3::new(fx(x), fx(y), fx(z))
}

fn assert_close(actual: Fixed, expected_raw: i64, tol_raw: i64) {
    let err = (actual.raw - expected_raw).abs();
    assert!(
        err <= tol_raw,
        "raw {} not within {} of {}",
        actual.raw,
        tol_raw,
        expected_raw
    );
}

// For the unit sphere the true normal at p is p normalized; at (3, 4, 0)
// that is (0.6, 0.8, 0), whose raw components are 39321.6 and 52428.8.
const NX: i64 = 39322;
const NY: i64 = 52429;

#[test]
fn central_difference_normal_of_sphere() {
    let s = Sphere::new(fx(1));
    let est: CentralDifferenceEstimator<Fixed, Fixed3, Dim3D> =
        CentralDifferenceEstimator::new(Fixed::from_raw(4096));
    let en = EstimateNormal::new(s, est);
    let n = en.normal_at(v3(3, 4, 0));
    assert_close(n.x, NX, 655);
    assert_close(n.y, NY, 655);
    assert_close(n.z, 0, 655);
}

#[test]
fn central_difference_normal_converges_as_eps_shrinks() {
    let s = Sphere::new(fx(1));
    let p = v3(3, 4, 0);
    // a coarse epsilon gives a coarse normal, a finer one a finer normal
    let coarse: CentralDifferenceEstimator<Fixed, Fixed3, Dim3D> =
        CentralDifferenceEstimator::new(Fixed::from_raw(16384));
    let n = EstimateNormal::new(s, coarse).normal_at(p);
    assert_close(n.x, NX, 2000);
    assert_close(n.y, NY, 2000);
    let fine: CentralDifferenceEstimator<Fixed, Fixed3, Dim3D> =
        CentralDifferenceEstimator::new(Fixed::from_raw(1024));
    let n = EstimateNormal::new(s, fine).normal_at(p);
    assert_close(n.x, NX, 500);
    assert_close(n.y, NY, 500);
}

#[test]
fn normals_builder_uses_central_difference() {
    let n = SDF::<Fixed, Fixed3>::normals(Sphere::new(fx(1)), Fixed::from_raw(4096))
        .normal_at(v3(3, 4, 0));
    assert_close(n.x, NX, 655);
    assert_close(n.y, NY, 655);
    assert_close(n.z, 0, 655);
}

#[test]
fn normals_fast_uses_tetrahedral_estimator() {
    let n = SDF::<Fixed, Fixed3>::normals_fast(Sphere::new(fx(1)), Fixed::from_raw(4096))
        .normal_at(v3(3, 4, 0));
    assert_close(n.x, NX, 2000);
    assert_close(n.y, NY, 2000);
    assert_close(n.z, 0, 2000);
}

#[test]
fn normals_with_explicit_estimator() {
    let est: TetrahedralEstimator<Fixed, Fixed3> =
        TetrahedralEstimator::new(Fixed::from_raw(4096));
    let n = SDF::<Fixed, Fixed3>::normals_with(Sphere::new(fx(1)), est).normal_at(v3(0, 0, 2));
    assert_close(n.x, 0, 2000);
    assert_close(n.y, 0, 2000);
    assert_close(n.z, 65536, 2000);
}

#[test]
fn new_default_uses_the_default_epsilon() {
    let s = Sphere::new(fx(1));
    let en: EstimateNormalDefault<Fixed, Fixed3, Sphere<Fixed>> = EstimateNormal::new_default(s);
    assert_eq!(en.estimator.eps.raw, 66);
    let n = en.normal_at(v3(3, 4, 0));
    assert_close(n.x, NX, 3277);
    assert_close(n.y, NY, 3277);
}
