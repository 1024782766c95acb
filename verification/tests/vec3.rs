use std::f64::consts::PI;
use vecx::scalar::equals_zero;
use vecx::Matrix;
use vecx::Vec2;
use vecx::Vec3;
use vecx::VecX;

#[test]
fn vec3_from_f64() {
    assert_eq!(Vec3::from(2.0), Vec3(2.0, 2.0, 2.0))
}

#[test]
fn vec3_from_vec() {
    assert_eq!(Vec3::from(Vec2(1.0, 2.0)), Vec3(1.0, 2.0, 0.0));
    assert_eq!(Vec3::from(Vec3(1.0, 2.0, 3.0)), Vec3(1.0, 2.0, 3.0));
}

#[test]
fn vec3_from_vec64() {
    assert_eq!(Vec3::from(vec![1.0]), Vec3(1.0, 0.0, 0.0));
    assert_eq!(Vec3::from(vec![1.0, 2.0]), Vec3(1.0, 2.0, 0.0));
    assert_eq!(Vec3::from(vec![1.0, 2.0, 3.0]), Vec3(1.0, 2.0, 3.0));
    assert_eq!(Vec3::from(vec![1.0, 2.0, 3.0, 4.0]), Vec3(1.0, 2.0, 3.0));
}

#[test]
fn vec3_is_indexable() {
    let v = Vec3(0.0, 1.0, 2.0);
    assert_eq!(v[0], 0.0);
    assert_eq!(v[1], 1.0);
    assert_eq!(v[2], 2.0);
}

#[test]
fn vec3_add() {
    let v = Vec3(1.0, 2.0, 3.0);
    assert_eq!(v + Vec3(-1.0, -2.0, -3.0), Vec3(0.0, 0.0, 0.0));
    assert_eq!(v + Vec3(3.0, 4.0, 5.0), Vec3(4.0, 6.0, 8.0));
    assert_eq!(v + Vec3(-3.0, -4.0, -5.0), Vec3(-2.0, -2.0, -2.0));
}

#[test]
fn vec3_add_assign() {
    let mut v = Vec3(1.0, 2.0, 3.0);
    v += Vec3(-1.0, -2.0, -3.0);
    assert_eq!(v, Vec3(0.0, 0.0, 0.0));
}

#[test]
fn vec3_sub() {
    let v = Vec3(1.0, 2.0, 3.0);
    assert_eq!(v - Vec3(-1.0, -2.0, -3.0), Vec3(2.0, 4.0, 6.0));
    assert_eq!(v - Vec3(3.0, 4.0, 5.0), Vec3(-2.0, -2.0, -2.0));
    assert_eq!(v - Vec3(-3.0, -4.0, -5.0), Vec3(4.0, 6.0, 8.0));
    assert_eq!(Vec3(-2.0, -2.0, -2.0), -Vec3(2.0, 2.0, 2.0));
}

#[test]
fn vec3_sub_assign() {
    let mut v = Vec3(1.0, 2.0, 3.0);
    v -= Vec3(1.0, 2.0, 3.0);
    assert_eq!(v, Vec3(0.0, 0.0, 0.0));
}

#[test]
fn vec3_mul() {
    let v = Vec3(1.0, 2.0, 3.0);
    assert_eq!(v * Vec3(-1.0, -2.0, -3.0), Vec3(-1.0, -4.0, -9.0));
    assert_eq!(v * Vec3(3.0, 4.0, 5.0), Vec3(3.0, 8.0, 15.0));
    assert_eq!(v * Vec3(-3.0, -4.0, -5.0), Vec3(-3.0, -8.0, -15.0));
    assert_eq!(v * 2.0, Vec3(2.0, 4.0, 6.0));
    assert_eq!(Vec3::scale(2.0, v), Vec3(2.0, 4.0, 6.0));
    assert_eq!(v * 0.0, Vec3(0.0, 0.0, 0.0));
    assert_eq!(Vec3::scale(0.0, v), Vec3(0.0, 0.0, 0.0));
    assert_eq!(v * Vec3(0.0, 0.0, 0.0), Vec3(0.0, 0.0, 0.0));
}

#[test]
fn vec3_mul_assign() {
    let mut v = Vec3(1.0, 2.0, 3.0);
    v *= Vec3(-1.0, -2.0, -3.0);
    assert_eq!(v, Vec3(-1.0, -4.0, -9.0));

    v *= 6.0;
    assert_eq!(v, Vec3(-6.0, -24.0, -54.0));
}

#[test]
fn vec3_div() {
    let v = Vec3(1.0, 2.0, 3.0);
    assert_eq!(v / 1.0, v);
    assert_eq!(v / 2.0, Vec3(0.5, 1.0, 1.5));
    assert_eq!(v / Vec3(1.0, 1.0, 1.0), v);
    assert_eq!(v / Vec3(2.0, 4.0, 6.0), Vec3(0.5, 0.5, 0.5));
    assert_eq!(v / 0.0, Vec3(f64::INFINITY, f64::INFINITY, f64::INFINITY));
    assert_eq!(v / Vec3(0.0, 0.0, 0.0), Vec3(f64::INFINITY, f64::INFINITY, f64::INFINITY));
}

#[test]
fn vec3_div_assign() {
    let mut v = Vec3(1.0, 2.0, 3.0);
    v /= Vec3(-1.0, -2.0, -3.0);
    assert_eq!(v, Vec3(-1.0, -1.0, -1.0));

    v /= 2.0;
    assert_eq!(v, Vec3(-0.5, -0.5, -0.5));
}

#[test]
fn div_zero_by_zero_v3() {
    assert!(Vec3(0.0, 0.0, 0.0).zero_by_zero(&Vec3(1.0, 1.0, 0.0)));
}

#[test]
fn vec3_div_zero_by_zero() {
    assert!(Vec3(0.0, 1.0, 2.0).has_zero() && equals_zero(0.0));
}

#[test]
fn vec3_div_assign_by_zero_v2() {
    let v = Vec3(0.0, 1.0, 2.0);
    assert!(v.zero_by_zero(&Vec3(0.0, 1.0, 2.0)));
}

#[test]
fn vec3_div_assign_by_zero() {
    let v = Vec3(0.0, 1.0, 2.0);
    assert!(v.has_zero() && equals_zero(0.0));
}

#[test]
fn vec3_rem() {
    let v = Vec3(1.0, 2.0, 3.0);
    assert_eq!(v % 1.0, Vec3(0.0, 0.0, 0.0));
    assert_eq!(v % 2.0, Vec3(1.0, 0.0, 1.0));
    assert_eq!(v % Vec3(1.0, 1.0, 1.0), Vec3(0.0, 0.0, 0.0));
    assert_eq!(v % Vec3(2.0, 4.0, 6.0), Vec3(1.0, 2.0, 3.0));

    let v = Vec3(5.0, 10.0, 15.0);
    assert_eq!(v % 2.0, Vec3(1.0, 0.0, 1.0));
    assert_eq!(v % 4.0, Vec3(1.0, 2.0, 3.0));
    assert_eq!(v % Vec3(3.0, 7.0, 11.0), Vec3(2.0, 3.0, 4.0));
}

#[test]
fn vec3_rem_assign() {
    let mut v = Vec3(5.0, 10.0, 15.0);
    v %= Vec3(3.0, 7.0, 11.0);
    assert_eq!(v, Vec3(2.0, 3.0, 4.0));

    v %= 2.0;
    assert_eq!(v, Vec3(0.0, 1.0, 0.0));
}

#[test]
fn rem_by_zero_v3() {
    assert!(Vec3(1.0, 0.0, 1.0).has_zero());
}

#[test]
fn vec3_rem_by_zero() {
    assert!(equals_zero(0.0));
}

#[test]
fn rem_assign_by_zero_v3() {
    assert!(Vec3(0.0, 1.0, 1.0).has_zero());
}

#[test]
fn vec3_rem_assign_by_zero() {
    assert!(equals_zero(0.0));
}

#[test]
fn vec3_magnitude() {
    assert_eq!(Vec3(0.0, 0.0, 0.0).magnitude(f64::sqrt), 0.0);
    assert_eq!(Vec3(1.0, 0.0, 0.0).magnitude(f64::sqrt), 1.0);
    assert_eq!(Vec3(0.0, 1.0, 0.0).magnitude(f64::sqrt), 1.0);
    assert_eq!(Vec3(1.0, 1.0, 1.0).magnitude(f64::sqrt), f64::sqrt(3.0));
    assert_eq!(Vec3(4.0, 3.0, 2.0).magnitude(f64::sqrt), f64::sqrt(16.0 + 9.0 + 4.0));
    assert_eq!(
        Vec3(-6.0, -2.0, -1.0).mag(f64::sqrt),
        Vec3(6.0, 2.0, 1.0).magnitude(f64::sqrt)
    );
}

#[test]
fn vec3_normalized() {
    assert_eq!(Vec3(1.0, 0.0, 0.0).normalized(f64::sqrt), Some(Vec3(1.0, 0.0, 0.0)));
    assert_eq!(Vec3(0.0, 1.0, 0.0).normalized(f64::sqrt), Some(Vec3(0.0, 1.0, 0.0)));

    assert_eq!(Vec3(2.0, 0.0, 0.0).normalized(f64::sqrt), Some(Vec3(1.0, 0.0, 0.0)));
    assert_eq!(Vec3(0.0, 2.0, 0.0).normalized(f64::sqrt), Some(Vec3(0.0, 1.0, 0.0)));
}

#[test]
fn vec3_not_normalizable() {
    assert_eq!(Vec3(0.0, 0.0, 0.0).normalized(f64::sqrt), None);
}

#[test]
fn vec3_dot_product() {
    let v_o = Vec3(0.0, 1.0, 0.0);
    let v_orth = Vec3(0.0, 0.0, -2.0);

    assert_eq!(v_o.dot_product(&v_orth), 0.0);
}

#[test]
fn vec3_dot() {
    let v_o = Vec3(0.0, 2.0, 0.0);
    let v_codir = Vec3(0.0, 3.0, 0.0);
    let v_orth = Vec3(0.0, 0.0, 3.0);
    let v_opp = Vec3(0.0, -3.0, 0.0);

    assert_eq!(v_o.dot_product(&v_orth), 0.0);
    assert_eq!(v_o.dot(&v_codir, f64::sqrt), Some(1.0));
    assert_eq!(v_o.dot(&v_opp, f64::sqrt), Some(-1.0));
}

#[test]
fn vec3_angle() {
    let v_o = Vec3(0.0, 2.0, 0.0);
    let v_codir = Vec3(0.0, 3.0, 0.0);
    let v_orth = Vec3(0.0, 0.0, 3.0);
    let v_opp = Vec3(0.0, -3.0, 0.0);

    assert_eq!(v_o.angle(&v_orth, f64::sqrt, f64::acos), Some(PI / 2.0));
    assert_eq!(v_o.angle(&v_codir, f64::sqrt, f64::acos), Some(0.0));
    assert_eq!(v_o.angle(&v_opp, f64::sqrt, f64::acos), Some(PI));
    assert_eq!(
        v_o.angle(&v_orth, f64::sqrt, f64::acos).map(f64::to_degrees),
        Some(90.0)
    );
    assert_eq!(
        v_o.angle(&v_opp, f64::sqrt, f64::acos).map(f64::to_degrees),
        Some(180.0)
    );
    assert_eq!(
        v_o.angle(&v_codir, f64::sqrt, f64::acos).map(f64::to_degrees),
        Some(0.0)
    );
}

#[test]
fn vec3_swizzle() {
    let v = Vec3(1.0, 2.0, 3.0);
    assert_eq!(v.s2("xy"), Vec2(1.0, 2.0));
    assert_eq!(v.s2("xx"), Vec2(1.0, 1.0));
    assert_eq!(v.s2("yy"), Vec2(2.0, 2.0));
    assert_eq!(v.s2("zz"), Vec2(3.0, 3.0));
    assert_eq!(v.s2("zx"), Vec2(3.0, 1.0));

    assert_eq!(v.s3("xxx"), Vec3(1.0, 1.0, 1.0));
    assert_eq!(v.s3("yyy"), Vec3(2.0, 2.0, 2.0));
    assert_eq!(v.s3("zzz"), Vec3(3.0, 3.0, 3.0));
    assert_eq!(v.s3("zyx"), Vec3(3.0, 2.0, 1.0));
}

#[test]
fn vec3_bad_swz_2_into_3() {
    assert!(!Vec3(1.0, 2.0, 3.0).can_swizzle::<Vec3<f64>>("xx"));
}

#[test]
fn vec3_bad_swz_3_into_2() {
    assert!(!Vec3(1.0, 2.0, 3.0).can_swizzle::<Vec2<f64>>("xxx"));
}

#[test]
fn vec3_bad_swz_1_into_2() {
    assert!(!Vec3(1.0, 2.0, 3.0).can_swizzle::<Vec2<f64>>("x"));
}

#[test]
fn vec3_bad_swz_1_into_3() {
    assert!(!Vec3(1.0, 2.0, 3.0).can_swizzle::<Vec3<f64>>("x"));
}

#[test]
fn vec3_bad_swz_invalid_component_s3() {
    assert!(!Vec3(1.0, 2.0, 3.0).can_swizzle::<Vec3<f64>>("xxc"));
}

#[test]
fn vec3_bad_swz_invalid_component_s2() {
    assert!(!Vec3(1.0, 2.0, 3.0).can_swizzle::<Vec2<f64>>("xc"));
}

#[test]
fn cross() {
    let a = Vec3(1.0, 0.0, 0.0);
    let b = Vec3(0.0, 1.0, 0.0);

    assert_eq!(a.cross(&b), Vec3(0.0, 0.0, 1.0));
    assert_eq!(b.cross(&a), Vec3(0.0, 0.0, -1.0));
}

#[test]
fn from_matrix() {
    let mat_3x1 = Matrix::from_rows(vec![vec![1.1], vec![2.1], vec![3.1]]);
    assert_eq!(Vec3::from_matrix(&mat_3x1), Vec3(1.1, 2.1, 3.1));

    let mat_1x3 = Matrix::from_rows(vec![vec![1.1, 1.2, 1.3]]);
    assert_eq!(Vec3::from_matrix(&mat_1x3), Vec3(1.1, 1.2, 1.3));
}
