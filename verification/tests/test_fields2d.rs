use sdfu::fixed::{Fixed, Fixed2};
use sdfu::mathtypes::{Arith, Dim2D, Vec, Vec2};
use sdfu::{Axis, CentralDifferenceEstimator, Elongate, ElongateMulti, EstimateNormal, SDF};

fn fx(i: i64) -> Fixed {
    Fixed::from_int(i)
}

fn v2(x: i64, y: i64) -> Fixed2 {
    Fixed2::new(fx(x), fx(y))
}

// A minimal two-dimensional field for exercising the 2D combinators: a disc
// around the origin. Implementations outside the verifier like this one
// inherit an unconstrained specification; only `dist` itself is supplied.
#[derive(Clone, Copy)]
struct Disc {
    radius: Fixed,
}

impl SDF<Fixed, Fixed2> for Disc {
    fn dist(&self, p: Fixed2) -> Fixed {
        p.magnitude().sub(self.radius)
    }
}

#[test]
fn disc_dist_in_two_dimensions() {
    let d = Disc { radius: fx(1) };
    assert_eq!(d.dist(v2(3, 4)), fx(4));
    assert_eq!(d.dist(v2(0, 0)), fx(-1));
}

#[test]
fn elongate_two_dimensional_field() {
    let f: Elongate<Fixed, Disc, Dim2D> = Elongate::new(Disc { radius: fx(1) }, Axis::X, fx(1));
    // (3, 0) is pulled back to (2, 0): distance 1
    assert_eq!(f.dist(v2(3, 0)), fx(1));
    let g: Elongate<Fixed, Disc, Dim2D> = Elongate::new(Disc { radius: fx(1) }, Axis::Y, fx(2));
    assert_eq!(g.dist(v2(0, 5)), fx(2));
}

#[test]
fn elongate_multi_two_dimensional_is_symmetric() {
    let f: ElongateMulti<Fixed2, Disc, Dim2D> = ElongateMulti::new(
        Disc { radius: fx(1) },
        v2(2, 1),
    );
    for p in [v2(3, 0), v2(-4, 2), v2(1, -5), v2(0, 0)] {
        assert_eq!(f.dist(p), f.dist(p.neg()));
    }
    // and an exact value: at (4, 0), q = (2, -1), the disc is sampled at
    // (2, 0) and the correction term is zero
    assert_eq!(f.dist(v2(4, 0)), fx(1));
}

#[test]
fn central_difference_normal_in_two_dimensions() {
    let d = Disc { radius: fx(1) };
    let est: CentralDifferenceEstimator<Fixed, Fixed2, Dim2D> =
        CentralDifferenceEstimator::new(Fixed::from_raw(4096));
    let n = EstimateNormal::new(d, est).normal_at(v2(3, 4));
    // the true normal is (0.6, 0.8)
    assert!((n.x.raw - 39322).abs() <= 655);
    assert!((n.y.raw - 52429).abs() <= 655);
}
