use rotation::angle::Rad;
use rotation::matrix::Matrix2;
use rotation::point::Point2;
use rotation::point::Point3;
use rotation::quaternion::Quaternion;
use rotation::rotation::Basis2;
use rotation::rotation::Basis3;
use rotation::scalar::Rational;
use rotation::vector::Vector2;
use rotation::vector::Vector3;

fn quarter_turn() -> Rad {
    Rad::new(0, 1, 1).expect("(0, 1) lies on the unit circle")
}

#[test]
fn quarter_turn_sends_x_to_y() {
    let rot = Basis2::from_angle(quarter_turn());
    let r = rot.rotate_vector(Vector2::unit_x());
    assert_eq!((r.x, r.y, r.den), (0, 1, 1));
}

#[test]
fn two_eighth_turns_give_a_quarter_turn() {
    // tan(pi/8) is irrational; 70/169 is a close rational stand-in.
    let eighth = Rad::from_half_tangent(70, 169);
    let rot = Basis2::from_angle(eighth);
    let full = rot.concat(&rot);
    let r = full.rotate_vector(Vector2::unit_x());
    let eps = Rational::new(1, 1000).unwrap();
    let rx = Rational::new(r.x, r.den).unwrap();
    let ry = Rational::new(r.y, r.den).unwrap();
    assert!(rx.approx_eq_eps(&Rational::new(0, 1).unwrap(), &eps));
    assert!(ry.approx_eq_eps(&Rational::new(1, 1).unwrap(), &eps));
}

#[test]
fn identity_is_neutral() {
    let rot = Basis2::from_angle(Rad::new(3, 4, 5).unwrap());
    assert_eq!(rot.concat(&Basis2::one()), rot);
    assert_eq!(Basis2::one().concat(&rot), rot);
}

#[test]
fn inverse_undoes_a_rotation() {
    let rot = Basis2::from_angle(Rad::new(3, 4, 5).unwrap());
    let eps = Rational::new(0, 1).unwrap();
    assert!(rot.concat(&rot.invert()).approx_eq_eps(&Basis2::one(), &eps));
    assert!(rot.invert().concat(&rot).approx_eq_eps(&Basis2::one(), &eps));
}

#[test]
fn rotation_preserves_squared_length() {
    let rot = Basis2::from_angle(Rad::new(3, 4, 5).unwrap());
    let v = Vector2::new(2, 7, 3).unwrap();
    let r = rot.rotate_vector(v);
    // |r|^2 == |v|^2 after clearing denominators.
    assert_eq!((r.x * r.x + r.y * r.y) * (v.den * v.den),
        (v.x * v.x + v.y * v.y) * (r.den * r.den));
}

#[test]
fn points_rotate_like_vectors() {
    let rot = Basis2::from_angle(quarter_turn());
    let v = Vector2::new(5, -2, 4).unwrap();
    let p = rot.rotate_point(Point2::from_vec(v));
    let r = rot.rotate_vector(v);
    assert_eq!(p, Point2::from_vec(r));
}

#[test]
fn mutating_variants_match_the_pure_ones() {
    let rot = Basis2::from_angle(Rad::new(3, 4, 5).unwrap());
    let other = Basis2::from_angle(Rad::new(-4, 3, 5).unwrap());
    let mut m = rot;
    m.concat_self(&other);
    assert_eq!(m, rot.concat(&other));
    let mut n = rot;
    n.invert_self();
    assert_eq!(n, rot.invert());
}

#[test]
fn angle_rejects_points_off_the_circle() {
    assert!(Rad::new(1, 1, 1).is_none());
    assert!(Rad::new(3, 4, 6).is_none());
    assert!(Rad::new(0, 1, 0).is_none());
}

#[test]
fn builders_reject_out_of_range_fields() {
    assert!(Quaternion::new(1, 2, 2, 0, 0).is_none());
    assert!(Quaternion::new(1, 2, 2, 0, -3).is_none());
    assert!(Vector2::new(1, 1, 0).is_none());
    assert!(Vector3::new(1, 1, 1, -1).is_none());
    assert!(Rational::new(1, 0).is_none());
}

#[test]
fn orthogonality_of_constructed_rotations() {
    let m: &Matrix2 = &Basis2::from_angle(Rad::from_half_tangent(5, 9)).mat;
    assert_eq!(m.m00 * m.m00 + m.m10 * m.m10, m.den * m.den);
    assert_eq!(m.m01 * m.m01 + m.m11 * m.m11, m.den * m.den);
    assert_eq!(m.m00 * m.m01 + m.m10 * m.m11, 0);
    assert_eq!(m.m00 * m.m11 - m.m01 * m.m10, m.den * m.den);
}

#[test]
fn quarter_turn_about_z_sends_x_to_y() {
    let rot = Basis3::from_angle_z(quarter_turn());
    let r = rot.rotate_vector(Vector3::unit_x());
    assert_eq!((r.x, r.y, r.z, r.den), (0, 1, 0, 1));
}

#[test]
fn euler_composes_x_then_y_then_z() {
    let a = Rad::new(3, 4, 5).unwrap();
    let b = Rad::new(-4, 3, 5).unwrap();
    let c = Rad::new(5, 12, 13).unwrap();
    let euler = Basis3::from_euler(a, b, c);
    let composed = Basis3::from_angle_z(c)
        .concat(&Basis3::from_angle_y(b))
        .concat(&Basis3::from_angle_x(a));
    assert_eq!(euler, composed);
    // Euler angles are order dependent: swapping two axes changes the result.
    let swapped = Basis3::from_euler(c, b, a);
    assert_ne!(euler, swapped);
}

#[test]
fn identity_is_neutral_in_three_dimensions() {
    let rot = Basis3::from_euler(
        Rad::new(3, 4, 5).unwrap(),
        Rad::new(0, 1, 1).unwrap(),
        Rad::new(-3, 4, 5).unwrap(),
    );
    assert_eq!(rot.concat(&Basis3::one()), rot);
    assert_eq!(Basis3::one().concat(&rot), rot);
}

#[test]
fn inverse_undoes_a_three_dimensional_rotation() {
    let rot = Basis3::from_euler(
        Rad::new(3, 4, 5).unwrap(),
        Rad::new(5, 12, 13).unwrap(),
        Rad::new(-4, 3, 5).unwrap(),
    );
    let eps = Rational::new(0, 1).unwrap();
    assert!(rot.concat(&rot.invert()).approx_eq_eps(&Basis3::one(), &eps));
    assert!(rot.invert().concat(&rot).approx_eq_eps(&Basis3::one(), &eps));
    let mut m = rot;
    m.invert_self();
    assert_eq!(m, rot.invert());
}

#[test]
fn three_dimensional_rotation_preserves_squared_length() {
    let rot = Basis3::from_euler(
        Rad::new(3, 4, 5).unwrap(),
        Rad::new(5, 12, 13).unwrap(),
        Rad::new(0, 1, 1).unwrap(),
    );
    let v = Vector3::new(2, -7, 4, 3).unwrap();
    let r = rot.rotate_vector(v);
    assert_eq!(
        (r.x * r.x + r.y * r.y + r.z * r.z) * (v.den * v.den),
        (v.x * v.x + v.y * v.y + v.z * v.z) * (r.den * r.den)
    );
}

#[test]
fn points_rotate_like_vectors_in_three_dimensions() {
    let rot = Basis3::from_angle_y(Rad::new(3, 4, 5).unwrap());
    let v = Vector3::new(5, -2, 7, 4).unwrap();
    let p = rot.rotate_point(Point3::from_vec(v));
    let r = rot.rotate_vector(v);
    assert_eq!(p, Point3::from_vec(r));
}

#[test]
fn between_vectors_turns_by_the_unsigned_angle() {
    let a = Vector2::new(3, 4, 5).unwrap();
    let b = Vector2::new(4, 3, 5).unwrap();
    // The signed angle from `b` to `a` is positive, so the unsigned turn
    // carries `b` exactly onto `a` (up to the denominator scaling).
    let rot = Basis2::between_vectors(&b, &a);
    let r = rot.rotate_vector(b);
    assert_eq!((r.x * a.den, r.y * a.den), (a.x * r.den, a.y * r.den));
    // From `a` to `b` the signed angle is negative; the construction still
    // turns counter-clockwise by the unsigned angle, so it maps `a` away
    // from `b` rather than onto it -- the documented original behaviour.
    let wrong_way = Basis2::between_vectors(&a, &b);
    let w = wrong_way.rotate_vector(a);
    assert_ne!((w.x * b.den, w.y * b.den), (b.x * w.den, b.y * w.den));
}

#[test]
fn look_at_aligns_the_first_axis() {
    let dir = Vector2::new(-4, 3, 5).unwrap();
    let up = Vector2::new(-3, -4, 5).unwrap();
    let rot = Basis2::look_at(dir, up);
    let r = rot.rotate_vector(Vector2::unit_x());
    assert_eq!((r.x, r.y, r.den), (dir.x, dir.y, dir.den));
}

#[test]
fn unit_quaternion_gives_an_orthogonal_rotation() {
    // (1 + 2i + 2j + 0k) / 3 is exactly unit: 1 + 4 + 4 = 9.
    let q = Quaternion::new(1, 2, 2, 0, 3).unwrap();
    let rot = Basis3::from_quaternion(&q);
    let m = rot.as_ref();
    assert_eq!(m.den, 9);
    assert_eq!(m.m00 * m.m00 + m.m10 * m.m10 + m.m20 * m.m20, m.den * m.den);
    assert_eq!(m.m01 * m.m01 + m.m11 * m.m11 + m.m21 * m.m21, m.den * m.den);
    assert_eq!(m.m00 * m.m01 + m.m10 * m.m11 + m.m20 * m.m21, 0);
    // The quaternion k (a half turn about the third axis) negates x and y.
    let half = Basis3::from_quaternion(&Quaternion::new(0, 0, 0, 1, 1).unwrap());
    let r = half.rotate_vector(Vector3::new(5, -3, 2, 4).unwrap());
    assert_eq!((r.x, r.y, r.z, r.den), (-5, 3, 2, 4));
}
