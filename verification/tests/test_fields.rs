use sdfu::fixed::{Fixed, Fixed3, QuarterTurn};
use sdfu::mathtypes::{MaxMin, One, PointFive, Vec, Vec3, Zero};
use sdfu::ops::MinFunction;
use sdfu::{
    Axis, Box, CappedCylinder, Capsule, Cylinder, ExponentialSmoothMin, HardMin, Intersection,
    PolySmoothMin, Sphere, Subtraction, Torus, Union, SDF,
};

fn fx(i: i64) -> Fixed {
    Fixed::from_int(i)
}

fn v3(x: i64, y: i64, z: i64) -> Fixed3 {
    Fixed3::new(fx(x), fx(y), fx(z))
}

#[test]
fn sphere_dist_is_magnitude_minus_radius() {
    let s = Sphere::new(fx(1));
    // |(3, 4, 0)| = 5, so the distance is 4
    assert_eq!(s.dist(v3(3, 4, 0)), fx(4));
    // strictly inside: |(0, 0, 0)| - 1 = -1
    assert_eq!(s.dist(v3(0, 0, 0)), fx(-1));
    // exactly on the boundary
    assert_eq!(s.dist(v3(0, 1, 0)), fx(0));
}

#[test]
fn unit_sphere_dist_at_origin_is_minus_one() {
    let sdf = Sphere::new(Fixed::one());
    let dist = sdf.dist(Fixed3::zero());
    assert_eq!(dist, fx(-1));
}

#[test]
fn box_dist_outside_and_inside() {
    let b = Box::new(v3(1, 1, 1));
    // outside along one face
    assert_eq!(b.dist(v3(3, 1, 1)), fx(2));
    // at the center, one unit inside every face
    assert_eq!(b.dist(v3(0, 0, 0)), fx(-1));
    // outside along a diagonal of two axes: |(2, 2, 0) - (1, 1, 1)| clamped
    let d = b.dist(v3(2, 3, 0));
    // q = (1, 2, -1); max(q, 0) = (1, 2, 0); |.| = sqrt(5)
    assert_eq!(d.raw, 146542);
}

#[test]
fn torus_dist_on_ring_plane() {
    let t = Torus::new(Fixed::point_five(), fx(2));
    // at (3, 0, 0): ring distance |p.xz| - 2 = 1, so q = (1, 0), |q| - 0.5
    assert_eq!(t.dist(v3(3, 0, 0)), Fixed::point_five());
    // on the ring circle itself: |p.xz| = 2, q = (0, 0), dist = -0.5
    assert_eq!(t.dist(v3(2, 0, 0)).raw, -32768);
}

#[test]
fn cylinder_dist_ignores_axis_coordinate() {
    let c = Cylinder::new(fx(1), Axis::Y);
    assert_eq!(c.dist(v3(3, 4, 0)), fx(2));
    assert_eq!(c.dist(v3(3, -100, 4)), fx(4));
    let cz = Cylinder::new(fx(1), Axis::Z);
    assert_eq!(cz.dist(v3(3, 4, -100)), fx(4));
}

#[test]
fn capped_cylinder_dist_beyond_the_cap() {
    let c = CappedCylinder::new(fx(1), fx(1), Axis::Y);
    // on the axis, two units above the cap
    assert_eq!(c.dist(v3(0, 3, 0)), fx(2));
    // radially outside, level with the center
    assert_eq!(c.dist(v3(3, 0, 0)), fx(2));
    // inside
    assert_eq!(c.dist(v3(0, 0, 0)), fx(-1));
}

#[test]
fn capsule_dist_clamps_to_segment() {
    let c = Capsule::new(v3(0, -1, 0), v3(0, 1, 0), Fixed::point_five());
    // beyond the top endpoint: distance to (0, 1, 0) minus the radius
    assert_eq!(c.dist(v3(0, 2, 0)), Fixed::point_five());
    // side of the cylinder part
    assert_eq!(c.dist(v3(2, 0, 0)).raw, 3 * 32768);
    // on the axis inside
    assert_eq!(c.dist(v3(0, 0, 0)).raw, -32768);
}

#[test]
fn union_hard_is_pointwise_min() {
    let a = Sphere::new(fx(1));
    let b = Sphere::new(fx(2));
    let u = SDF::<Fixed, Fixed3>::union(a, b);
    let p = v3(3, 4, 0);
    assert_eq!(u.dist(p), fx(3));
    let m: HardMin<Fixed> = HardMin::new();
    assert_eq!(u.dist(p), m.min(a.dist(p), b.dist(p)));
    assert_eq!(Union::hard(a, b).dist(p), fx(3));
}

#[test]
fn intersection_is_pointwise_max() {
    let a = Sphere::new(fx(1));
    let b = Sphere::new(fx(2));
    let i = SDF::<Fixed, Fixed3>::intersection(a, b);
    let p = v3(3, 4, 0);
    assert_eq!(i.dist(p), fx(4));
    assert_eq!(Intersection::new(a, b).dist(p), fx(4));
}

#[test]
fn subtraction_carves_and_is_not_commutative() {
    let base = Sphere::new(fx(2));
    let cut = Sphere::new(fx(1));
    // at the origin: max(-(0 - 1), 0 - 2) = 1: carved out of the inside
    assert_eq!(Subtraction::new(base, cut).dist(v3(0, 0, 0)), fx(1));
    // swapping the operands changes the field
    assert_eq!(Subtraction::new(cut, base).dist(v3(0, 0, 0)), fx(2));
    // the trait method carves its argument out of the receiver
    assert_eq!(SDF::<Fixed, Fixed3>::subtract(base, cut).dist(v3(0, 0, 0)), fx(1));
}

#[test]
fn poly_smooth_min_far_apart_equals_hard_min() {
    let m = PolySmoothMin::new(fx(1));
    assert_eq!(m.min(fx(0), fx(5)), fx(0));
    assert_eq!(m.min(fx(5), fx(0)), fx(0));
    assert_eq!(m.min(fx(-3), fx(4)), fx(-3));
}

#[test]
fn poly_smooth_min_blends_below_the_max() {
    let m = PolySmoothMin::new(fx(1));
    // a = 0, b = 0.5: h = clamp(0.5 + 0.25) = 0.75,
    // lerp(b, a, h) = 0.125, correction = 0.75 * 0.25 = 0.1875,
    // so the blend is -0.0625
    let blend = m.min(fx(0), Fixed::point_five());
    assert_eq!(blend.raw, -4096);
    // and it never exceeds the larger input
    assert!(blend.raw <= Fixed::point_five().raw);
}

#[test]
fn union_smooth_blends_two_spheres() {
    let a = Sphere::new(fx(1));
    let b = Sphere::new(fx(2));
    let u = SDF::<Fixed, Fixed3>::union_smooth(a, b, fx(1));
    let p = v3(3, 4, 0);
    // distances 4 and 3 are farther apart than the radius 1: the hard min
    assert_eq!(u.dist(p), fx(3));
    let m = PolySmoothMin::new(fx(1));
    assert_eq!(u.dist(p), m.min(a.dist(p), b.dist(p)));
}

#[test]
fn union_with_custom_min_function() {
    let a = Sphere::new(fx(1));
    let b = Sphere::new(fx(2));
    let u = SDF::<Fixed, Fixed3>::union_with(a, b, PolySmoothMin::new(fx(1)));
    assert_eq!(u.dist(v3(3, 4, 0)), fx(3));
}

#[test]
fn round_insets_the_surface() {
    let r = SDF::<Fixed, Fixed3>::round(Sphere::new(fx(1)), Fixed::point_five());
    let p = v3(3, 4, 0);
    assert_eq!(r.dist(p).raw, 4 * 65536 - 32768);
}

#[test]
fn translate_moves_the_field() {
    let t = Sphere::new(fx(1)).translate(v3(2, 0, 0));
    assert_eq!(t.dist(v3(2, 0, 0)), fx(-1));
    assert_eq!(t.dist(v3(6, 3, 0)), fx(4));
}

#[test]
fn translate_round_trip() {
    let s = Sphere::new(fx(1));
    let t = s.translate(v3(7, -2, 5));
    let samples = [v3(0, 0, 0), v3(3, 4, 0), v3(-1, 2, -3)];
    for p in samples {
        let moved = Fixed3::new(
            Fixed::from_raw(p.x.raw + 7 * 65536),
            Fixed::from_raw(p.y.raw - 2 * 65536),
            Fixed::from_raw(p.z.raw + 5 * 65536),
        );
        assert_eq!(t.dist(moved), s.dist(p));
    }
}

#[test]
fn rotate_samples_in_the_local_frame() {
    let f = SDF::<Fixed, Fixed3>::rotate(
        Sphere::new(fx(1)).translate(v3(2, 0, 0)),
        QuarterTurn::new(Axis::Z),
    );
    // the inverse quarter turn about Z maps (0, -2, 0) to (-2, 0, 0)...
    assert_eq!(f.dist(v3(0, -2, 0)), fx(3));
    // ...and (0, 2, 0) to (2, 0, 0), the center of the translated sphere
    assert_eq!(f.dist(v3(0, 2, 0)), fx(-1));
}

#[test]
fn scale_is_uniform() {
    let f = SDF::<Fixed, Fixed3>::scale(Sphere::new(fx(1)), fx(2));
    assert_eq!(f.dist(v3(4, 0, 0)), fx(2));
    assert_eq!(f.dist(v3(0, 0, 0)), fx(-2));
}

#[test]
fn elongate_stretches_along_one_axis() {
    let f = SDF::<Fixed, Fixed3>::elongate(Sphere::new(fx(1)), Axis::X, fx(1));
    // pulled back by the clamp: (3, 0, 0) samples the sphere at (2, 0, 0)
    assert_eq!(f.dist(v3(3, 0, 0)), fx(1));
    // anywhere in the stretched core the distance is the sphere's at zero
    assert_eq!(f.dist(v3(1, 0, 0)), fx(-1));
    let g = SDF::<Fixed, Fixed3>::elongate(Sphere::new(fx(1)), Axis::Y, fx(2));
    assert_eq!(g.dist(v3(0, 5, 0)), fx(2));
}

#[test]
fn elongate_multi_axis_is_symmetric() {
    let f = Sphere::new(fx(1)).elongate_multi_axis(v3(2, 1, 0));
    let samples = [v3(3, 0, 0), v3(4, 2, 1), v3(-1, 5, 2), v3(0, 0, 0)];
    for p in samples {
        assert_eq!(f.dist(p), f.dist(p.neg()));
    }
    // and an exact value: q = abs(p) - (2, 1, 0) = (2, -1, 0) at p = (4, 0, 0),
    // the sphere is sampled at (2, 0, 0) and the correction is min(2, 0) = 0
    assert_eq!(f.dist(v3(4, 0, 0)), fx(1));
}

#[test]
fn composite_tree_combines_everything() {
    let carved = SDF::<Fixed, Fixed3>::subtract(Sphere::new(fx(2)), Box::new(v3(1, 1, 1)));
    let blended = SDF::<Fixed, Fixed3>::union_smooth(
        carved,
        Sphere::new(fx(1)).translate(v3(4, 0, 0)),
        fx(1),
    );
    let f = SDF::<Fixed, Fixed3>::round(blended, Fixed::point_five());
    // far away on the x axis the nearest feature is the translated sphere:
    // dist = (|(10, 0, 0) - (4, 0, 0)| - 1) - 0.5
    assert_eq!(f.dist(v3(10, 0, 0)).raw, 5 * 65536 - 32768);
}

#[test]
fn exponential_smooth_min_blends() {
    let m = ExponentialSmoothMin::new(fx(1));
    // a = 1, b = 2: 2^-1 + 2^-2 = 0.75, and -log2(0.75) interpolates to 0.5
    assert_eq!(m.min(fx(1), fx(2)).raw, 32768);
    // equal inputs blend below the hard minimum: 2 * 2^-2 = 2^-1 gives 1
    assert_eq!(m.min(fx(2), fx(2)), fx(1));
}

#[test]
fn union_with_exponential_min_function() {
    let a = Sphere::new(fx(1));
    let b = Sphere::new(fx(2));
    let u = SDF::<Fixed, Fixed3>::union_with(a, b, ExponentialSmoothMin::new(fx(1)));
    // distances 4 and 3: 2^-4 + 2^-3 = 0.1875, -log2 of which interpolates
    // to 2.5
    assert_eq!(u.dist(v3(3, 4, 0)).raw, 163840);
}
