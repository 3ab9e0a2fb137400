use vec2::Vec2;

#[test]
fn new_keeps_coordinates() {
    let v = Vec2::new(3, -4);
    assert_eq!(v.x, 3);
    assert_eq!(v.y, -4);
}

#[test]
fn null_is_zero() {
    let z = Vec2::null();
    assert_eq!(z, Vec2::new(0, 0));
    assert_eq!(Vec2::default(), z);
}

#[test]
fn add_is_componentwise() {
    let a = Vec2::new(1, 2);
    let b = Vec2::new(30, -40);
    assert_eq!(a.add(b), Vec2::new(a.x + b.x, a.y + b.y));
    assert_eq!(a.add(b), Vec2::new(31, -38));
}

#[test]
fn add_assign_matches_add() {
    let a = Vec2::new(1, 2);
    let b = Vec2::new(30, -40);
    let mut c = a;
    c.add_assign(b);
    assert_eq!(c, a.add(b));
}

#[test]
fn sub_is_componentwise() {
    let a = Vec2::new(10, 2);
    let b = Vec2::new(3, 40);
    assert_eq!(a.sub(b), Vec2::new(7, -38));
    let mut c = a;
    c.sub_assign(b);
    assert_eq!(c, a.sub(b));
}

#[test]
fn mul_is_componentwise() {
    let a = Vec2::new(10, -2);
    let b = Vec2::new(3, 40);
    assert_eq!(a.mul(b), Vec2::new(30, -80));
    let mut c = a;
    c.mul_assign(b);
    assert_eq!(c, a.mul(b));
}

#[test]
fn neg_flips_both_signs() {
    let a = Vec2::new(10, -2);
    assert_eq!(a.neg(), Vec2::new(-a.x, -a.y));
    assert_eq!(Vec2::null().neg(), Vec2::null());
}

#[test]
fn scalar_forms_broadcast() {
    let a = Vec2::new(10, -2);
    assert_eq!(a.add_scalar(5), Vec2::new(15, 3));
    assert_eq!(a.sub_scalar(5), Vec2::new(5, -7));
    assert_eq!(a.mul_scalar(-3), Vec2::new(-30, 6));
    let mut b = a;
    b.add_scalar_assign(5);
    assert_eq!(b, a.add_scalar(5));
    let mut c = a;
    c.sub_scalar_assign(5);
    assert_eq!(c, a.sub_scalar(5));
    let mut d = a;
    d.mul_scalar_assign(-3);
    assert_eq!(d, a.mul_scalar(-3));
}

#[test]
fn add_at_the_edge_of_the_range() {
    let a = Vec2::new(i64::MAX - 1, i64::MIN + 1);
    let b = Vec2::new(1, -1);
    assert_eq!(a.add(b), Vec2::new(i64::MAX, i64::MIN));
}

#[test]
fn len_sqr_of_3_4_is_25() {
    assert_eq!(Vec2::new(3, 4).len_sqr(), 25);
    assert_eq!(Vec2::null().len_sqr(), 0);
}

#[test]
fn len_sqr_equals_self_dot() {
    let v = Vec2::new(3, 4);
    assert_eq!(v.len_sqr(), v.dot(v));
    let w = Vec2::new(-7, 11);
    assert_eq!(w.len_sqr(), w.dot(w));
}

#[test]
fn dot_of_orthogonal_vectors_is_zero() {
    assert_eq!(Vec2::new(1, 0).dot(Vec2::new(0, 1)), 0);
    assert_eq!(Vec2::new(2, 3).dot(Vec2::new(-3, 2)), 0);
    assert_eq!(Vec2::new(2, 3).dot(Vec2::new(4, 5)), 23);
}

#[test]
fn dist_sqr_is_symmetric() {
    let v = Vec2::new(1, 2);
    let w = Vec2::new(4, 6);
    assert_eq!(v.dist_sqr(w), 25);
    assert_eq!(w.dist_sqr(v), 25);
}

#[test]
fn dist_sqr_is_diff_dot() {
    let v = Vec2::new(9, -2);
    let w = Vec2::new(4, 6);
    let d = v.sub(w);
    assert_eq!(v.dist_sqr(w), d.dot(d));
}

#[test]
fn lerp_boundaries() {
    let v = Vec2::new(1, 2);
    let w = Vec2::new(13, 24);
    assert_eq!(v.lerp(w, 0), v);
    assert_eq!(v.lerp(w, 1), w);
}

#[test]
fn lerp_extrapolates() {
    let v = Vec2::new(1, 2);
    let w = Vec2::new(3, 5);
    assert_eq!(v.lerp(w, 2), Vec2::new(5, 8));
    assert_eq!(v.lerp(w, -1), Vec2::new(-1, -1));
}

#[test]
fn reflect_across_unit_normal() {
    let v = Vec2::new(3, 4);
    let n = Vec2::new(0, 1);
    assert_eq!(v.reflect(n), Vec2::new(3, -4));
    let m = Vec2::new(1, 0);
    assert_eq!(v.reflect(m), Vec2::new(-3, 4));
}

#[test]
fn reflect_twice_gives_the_vector_back() {
    let v = Vec2::new(3, 4);
    let n = Vec2::new(0, -1);
    assert_eq!(v.reflect(n).reflect(n), v);
}

#[test]
fn rotate_by_a_quarter_turn() {
    let v = Vec2::new(3, 4);
    assert_eq!(v.rotate(0, 1), Vec2::new(-4, 3));
    assert_eq!(v.rotate(-1, 0), Vec2::new(-3, -4));
}

#[test]
fn rotate_keeps_the_squared_length() {
    let v = Vec2::new(3, 4);
    assert_eq!(v.rotate(0, 1).len_sqr(), v.len_sqr());
    assert_eq!(v.rotate(0, -1).len_sqr(), v.len_sqr());
}

#[test]
fn rotate_round_trip() {
    let v = Vec2::new(3, 4);
    assert_eq!(v.rotate(0, 1).rotate(0, -1), v);
}

#[test]
fn abs_is_componentwise() {
    assert_eq!(Vec2::new(-3, 4).abs(), Vec2::new(3, 4));
    assert_eq!(Vec2::new(3, -4).abs(), Vec2::new(3, 4));
    assert_eq!(Vec2::null().abs(), Vec2::null());
}

#[test]
fn abs_diff_is_componentwise() {
    let v = Vec2::new(1, 10);
    let w = Vec2::new(4, 6);
    assert_eq!(v.abs_diff(w), Vec2::new(3, 4));
    assert_eq!(w.abs_diff(v), Vec2::new(3, 4));
}

#[test]
fn clamp_is_componentwise() {
    let lo = Vec2::new(0, 0);
    let hi = Vec2::new(5, 5);
    assert_eq!(Vec2::new(7, -9).clamp(lo, hi), Vec2::new(5, 0));
    assert_eq!(Vec2::new(3, 4).clamp(lo, hi), Vec2::new(3, 4));
}

#[test]
fn clamp_lets_the_upper_bound_win() {
    let lo = Vec2::new(4, 4);
    let hi = Vec2::new(2, 2);
    assert_eq!(Vec2::new(3, 9).clamp(lo, hi), Vec2::new(2, 2));
}
