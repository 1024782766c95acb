use std::f64::consts::PI;
use vecx::dot::vec_dot;
use vecx::mat::is_rectangular;
use vecx::scalar::equals_zero;
use vecx::scalar::mul_add;
use vecx::scalar::mul_sub;
use vecx::scalar::one;
use vecx::scalar::turn;
use vecx::scalar::zero;
use vecx::Components;
use vecx::Matrix;
use vecx::Vec2;
use vecx::Vec3;
use vecx::Vec4;
use vecx::VecX;

#[test]
fn identity_swizzle_returns_the_vector() {
    let v2 = Vec2(1.5, -2.5);
    assert_eq!(v2.s2("xy"), v2);
    let v3 = Vec3(1.0, 2.0, 3.0);
    assert_eq!(v3.s3("xyz"), v3);
    assert_eq!(v3.s3("rgb"), v3);
    let v4 = Vec4(1.0, 2.0, 3.0, 4.0);
    assert_eq!(v4.s4("xyzw"), v4);
    assert_eq!(v4.s4("rgba"), v4);
}

#[test]
fn repeated_letter_repeats_the_component() {
    let v = Vec2(7.0, 9.0);
    assert_eq!(v.s3("xxx"), Vec3(v.x(), v.x(), v.x()));
    assert_eq!(v.s4("yyyy"), Vec4(9.0, 9.0, 9.0, 9.0));
}

#[test]
fn swizzle_follows_the_order_of_the_letters() {
    let v = Vec4(1.0, 2.0, 3.0, 4.0);
    assert_eq!(v.s4("wzyx"), Vec4(4.0, 3.0, 2.0, 1.0));
    assert_eq!(v.s4("abgr"), Vec4(4.0, 3.0, 2.0, 1.0));
    assert_eq!(v.s2("wa"), Vec2(4.0, 4.0));
    assert_eq!(v.s::<Vec3<f64>>("bgr"), Vec3(3.0, 2.0, 1.0));
    assert_eq!(v.swizzle_as_vec64("xxyyzzww"), vec![1.0, 1.0, 2.0, 2.0, 3.0, 3.0, 4.0, 4.0]);
    assert_eq!(v.swizzle_as_vec64(""), Vec::<f64>::new());
}

#[test]
fn swizzle_of_the_wrong_length_is_refused() {
    let v3 = Vec3(1.0, 2.0, 3.0);
    assert!(!v3.can_swizzle::<Vec2<f64>>("xxx"));
    assert!(!v3.is_valid_swizzle::<Vec2<f64>>("xxx"));
    let v2 = Vec2(1.0, 2.0);
    assert!(!v2.can_swizzle::<Vec3<f64>>("x"));
    assert!(!v2.is_valid_swizzle::<Vec3<f64>>("x"));
    assert!(!v2.can_swizzle::<Vec2<f64>>(""));
    assert!(v2.can_swizzle::<Vec2<f64>>("yx"));
    assert!(v2.is_valid_swizzle::<Vec2<f64>>("yx"));
    assert!(v3.can_swizzle::<Vec4<f64>>("rgbz"));
}

#[test]
fn swizzle_with_an_unknown_letter_is_refused() {
    let v2 = Vec2(1.0, 2.0);
    assert!(!v2.can_swizzle::<Vec2<f64>>("xz"));
    assert!(!v2.can_swizzle::<Vec2<f64>>("rg"));
    assert!(v2.is_valid_swizzle::<Vec2<f64>>("xz"));
    let v3 = Vec3(1.0, 2.0, 3.0);
    assert!(!v3.can_swizzle::<Vec2<f64>>("xw"));
    assert!(!v3.can_swizzle::<Vec2<f64>>("xa"));
    assert!(!v3.can_swizzle::<Vec2<f64>>("Xy"));
    let v4 = Vec4(1.0, 2.0, 3.0, 4.0);
    assert!(v4.can_swizzle::<Vec2<f64>>("wa"));
    assert!(!v4.can_swizzle::<Vec2<f64>>("xé"));
    assert!(!v4.can_swizzle::<Vec2<f64>>("é"));
    assert!(v4.is_valid_swizzle::<Vec2<f64>>("é"));
}

#[test]
fn letters_of_each_vector_type() {
    for c in ['x', 'y'] {
        assert!(Vec2::<f64>::has_comp(c));
    }
    for c in ['z', 'w', 'r', 'g', 'b', 'a', 'c', ' '] {
        assert!(!Vec2::<f64>::has_comp(c));
    }
    for c in ['x', 'y', 'z', 'r', 'g', 'b'] {
        assert!(Vec3::<f64>::has_comp(c));
    }
    for c in ['w', 'a', 'c'] {
        assert!(!Vec3::<f64>::has_comp(c));
    }
    for c in ['x', 'y', 'z', 'w', 'r', 'g', 'b', 'a'] {
        assert!(Vec4::<f64>::has_comp(c));
    }
    assert!(!Vec4::<f64>::has_comp('c'));
}

#[test]
fn components_by_letter() {
    let v2 = Vec2(1.0, 2.0);
    assert_eq!(v2.comp('x'), 1.0);
    assert_eq!(v2.comp('y'), 2.0);
    let v3 = Vec3(1.0, 2.0, 3.0);
    assert_eq!(v3.comp('x'), 1.0);
    assert_eq!(v3.comp('y'), 2.0);
    assert_eq!(v3.comp('z'), 3.0);
    assert_eq!(v3.comp('r'), 1.0);
    assert_eq!(v3.comp('g'), 2.0);
    assert_eq!(v3.comp('b'), 3.0);
    let v4 = Vec4(1.0, 2.0, 3.0, 4.0);
    assert_eq!(v4.comp('x'), 1.0);
    assert_eq!(v4.comp('y'), 2.0);
    assert_eq!(v4.comp('z'), 3.0);
    assert_eq!(v4.comp('w'), 4.0);
    assert_eq!(v4.comp('r'), 1.0);
    assert_eq!(v4.comp('g'), 2.0);
    assert_eq!(v4.comp('b'), 3.0);
    assert_eq!(v4.comp('a'), 4.0);
}

#[test]
fn accessors_read_the_components() {
    let v2 = Vec2(1.0, 2.0);
    assert_eq!((v2.x(), v2.y()), (1.0, 2.0));
    let v3 = Vec3(1.0, 2.0, 3.0);
    assert_eq!((v3.x(), v3.y(), v3.z()), (1.0, 2.0, 3.0));
    let v4 = Vec4(1.0, 2.0, 3.0, 4.0);
    assert_eq!((v4.x(), v4.y(), v4.z(), v4.w()), (1.0, 2.0, 3.0, 4.0));
    assert_eq!((v4.r(), v4.g(), v4.b(), v4.a()), (1.0, 2.0, 3.0, 4.0));
}

#[test]
fn sizes() {
    assert_eq!(Vec2::<f64>::size(), 2);
    assert_eq!(Vec3::<f64>::size(), 3);
    assert_eq!(Vec4::<f64>::size(), 4);
}

#[test]
fn at_reads_zero_past_the_last_component() {
    let v2 = Vec2(1.0, 2.0);
    assert_eq!(v2.at(0), 1.0);
    assert_eq!(v2.at(1), 2.0);
    assert_eq!(v2.at(2), 0.0);
    assert_eq!(v2.at(100), 0.0);
    let v3 = Vec3(1.0, 2.0, 3.0);
    assert_eq!(v3.at(2), 3.0);
    assert_eq!(v3.at(3), 0.0);
    let v4 = Vec4(1.0, 2.0, 3.0, 4.0);
    assert_eq!(v4.at(3), 4.0);
    assert_eq!(v4.at(4), 0.0);
}

#[test]
fn as_values_of_widens_and_narrows() {
    let v = Vec2(1.0, 2.0);
    assert_eq!(v.as_values_of::<Vec3<f64>>(), vec![1.0, 2.0, 0.0]);
    assert_eq!(v.as_values_of::<Vec4<f64>>(), vec![1.0, 2.0, 0.0, 0.0]);
    assert_eq!(v.as_values_of::<Vec2<f64>>(), vec![1.0, 2.0]);
    let w = Vec4(1.0, 2.0, 3.0, 4.0);
    assert_eq!(w.as_values_of::<Vec2<f64>>(), vec![1.0, 2.0]);
    assert_eq!(w.as_values_of::<Vec3<f64>>(), vec![1.0, 2.0, 3.0]);
    assert_eq!(w.as_values_of::<Vec4<f64>>(), vec![1.0, 2.0, 3.0, 4.0]);
}

#[test]
fn from_values_pads_and_cuts() {
    assert_eq!(Vec2::from_values(vec![]), Vec2(0.0, 0.0));
    assert_eq!(Vec3::from_values(vec![1.0]), Vec3(1.0, 0.0, 0.0));
    assert_eq!(Vec4::from_values(vec![1.0, 2.0, 3.0, 4.0, 5.0]), Vec4(1.0, 2.0, 3.0, 4.0));
    assert_eq!(Vec4::from(Vec::<f64>::new()), Vec4(0.0, 0.0, 0.0, 0.0));
}

#[test]
fn conversions_between_sizes() {
    assert_eq!(Vec3::from(Vec2(2.0, 3.0)), Vec3(2.0, 3.0, 0.0));
    assert_eq!(Vec3::from((Vec2(2.0, 3.0), 4.0)), Vec3(2.0, 3.0, 4.0));
    assert_eq!(Vec3::from((4.0, Vec2(2.0, 3.0))), Vec3(4.0, 2.0, 3.0));
    assert_eq!(Vec3::from(7.5), Vec3(7.5, 7.5, 7.5));
    assert_eq!(Vec3::from(Vec4(1.0, 2.0, 3.0, 4.0)), Vec3(1.0, 2.0, 3.0));
    assert_eq!(Vec4::from((Vec3(1.0, 2.0, 3.0), 4.0)), Vec4(1.0, 2.0, 3.0, 4.0));
    assert_eq!(Vec4::from((4.0, Vec3(1.0, 2.0, 3.0))), Vec4(4.0, 1.0, 2.0, 3.0));
    assert_eq!(Vec2::from(Vec3::from(Vec2(5.0, 6.0))), Vec2(5.0, 6.0));
}

#[test]
fn zero_one_and_default() {
    assert_eq!(Vec3::<f64>::zero(), Vec3(0.0, 0.0, 0.0));
    assert_eq!(Vec3::<f64>::one(), Vec3(1.0, 1.0, 1.0));
    assert_eq!(Vec3::<f64>::default(), Vec3(0.0, 0.0, 0.0));
    assert_eq!(Vec4::<f64>::default(), Vec4(0.0, 0.0, 0.0, 0.0));
    assert_eq!(zero::<f64>(), 0.0);
    assert_eq!(one::<f64>(), 1.0);
    assert_eq!(zero::<i32>(), 0);
    assert_eq!(one::<i64>(), 1);
}

#[test]
fn zero_test() {
    assert!(equals_zero(0.0));
    assert!(equals_zero(-0.0));
    assert!(!equals_zero(1.0e-300));
    assert!(!equals_zero(f64::NAN));
    assert!(equals_zero(0i32));
    assert!(!equals_zero(-1i32));
}

#[test]
fn division_by_zero_gives_infinity() {
    assert_eq!(
        Vec2(1.0, 2.0) / Vec2(0.0, 0.0),
        Vec2(f64::INFINITY, f64::INFINITY)
    );
    assert!(!Vec2(1.0, 2.0).zero_by_zero(&Vec2(0.0, 0.0)));
    assert_eq!(
        Vec2(-1.0, 2.0) / 0.0,
        Vec2(f64::NEG_INFINITY, f64::INFINITY)
    );
}

#[test]
fn one_zero_by_zero_refuses_the_division() {
    assert!(Vec2(0.0, 0.0).zero_by_zero(&Vec2(1.0, 0.0)));
    assert!(Vec2(0.0, 1.0).zero_by_zero(&Vec2(0.0, 1.0)));
    assert!(!Vec2(0.0, 1.0).zero_by_zero(&Vec2(1.0, 0.0)));
    assert!(Vec3(1.0, 0.0, 1.0).zero_by_zero(&Vec3(1.0, 0.0, 1.0)));
    assert!(!Vec3(1.0, 2.0, 3.0).zero_by_zero(&Vec3(0.0, 0.0, 0.0)));
    assert!(Vec4(1.0, 1.0, 1.0, 0.0).zero_by_zero(&Vec4(1.0, 1.0, 1.0, 0.0)));
    assert!(!Vec4(0.0, 0.0, 0.0, 0.0).zero_by_zero(&Vec4(1.0, 1.0, 1.0, 1.0)));
}

#[test]
fn one_zero_divisor_refuses_the_remainder() {
    assert!(Vec2(1.0, 0.0).has_zero());
    assert!(Vec2(0.0, 1.0).has_zero());
    assert!(!Vec2(1.0, 1.0).has_zero());
    assert!(Vec3(1.0, 1.0, 0.0).has_zero());
    assert!(!Vec3(1.0, 1.0, 1.0).has_zero());
    assert!(Vec4(1.0, 1.0, 1.0, 0.0).has_zero());
    assert!(!Vec4(1.0, 1.0, 1.0, 1.0).has_zero());
}

#[test]
fn scalar_on_the_left() {
    assert_eq!(Vec2::scale(3.0, Vec2(2.0, 2.0)), Vec2(6.0, 6.0));
    assert_eq!(Vec3::scale(2.0, Vec3(1.0, 2.0, 3.0)), Vec3(2.0, 4.0, 6.0));
    assert_eq!(Vec4::scale(0.5, Vec4(1.0, 2.0, 3.0, 4.0)), Vec4(0.5, 1.0, 1.5, 2.0));
}

#[test]
fn negation_flips_every_sign() {
    assert_eq!(-Vec2(1.0, -2.0), Vec2(-1.0, 2.0));
    assert_eq!(-Vec3(1.0, -2.0, 3.0), Vec3(-1.0, 2.0, -3.0));
    assert_eq!(-Vec4(1.0, -2.0, 3.0, -4.0), Vec4(-1.0, 2.0, -3.0, 4.0));
}

#[test]
fn equality_is_exact() {
    assert!(Vec2(0.1 + 0.2, 0.0) != Vec2(0.3, 0.0));
    assert!(Vec2(0.5, 0.25) == Vec2(0.5, 0.25));
    assert!(Vec3(1.0, 2.0, 3.0) != Vec3(1.0, 2.0, 4.0));
    assert!(Vec4(1.0, 2.0, 3.0, 4.0) != Vec4(1.0, 2.0, 3.0, 5.0));
    assert!(Vec2(f64::NAN, 0.0) != Vec2(f64::NAN, 0.0));
}

#[test]
fn integer_scalars() {
    let v = Vec3(1i32, 2i32, 3i32);
    assert_eq!(v + Vec3(1, 1, 1), Vec3(2, 3, 4));
    assert_eq!(v * 2, Vec3(2, 4, 6));
    assert_eq!(v.s2("zx"), Vec2(3, 1));
    assert_eq!(v.dot_product(&v), 14);
    assert_eq!(v.cross(&Vec3(0, 1, 0)), Vec3(-3, 0, 1));
    assert_eq!(v.at(7), 0);
}

#[test]
fn mul_add_and_mul_sub() {
    assert_eq!(mul_add(2.0, 3.0, 4.0, 5.0), 26.0);
    assert_eq!(mul_sub(2.0, 3.0, 4.0, 5.0), -14.0);
    assert_eq!(turn(1.0, 2.0, 0.0, 1.0), (2.0, -1.0));
    assert_eq!(turn(1.0, 2.0, 1.0, 0.0), (1.0, 2.0));
}

#[test]
fn dot_products() {
    assert_eq!(vec_dot(&Vec::<f64>::new(), &Vec::<f64>::new()), 0.0);
    assert_eq!(vec_dot(&vec![3.0], &vec![4.0]), 12.0);
    assert_eq!(vec_dot(&vec![1.0, 2.0, 3.0], &vec![4.0, 5.0, 6.0]), 32.0);
    assert_eq!(Vec2(1.0, 2.0).dot_product(&Vec2(3.0, 4.0)), 11.0);
    assert_eq!(Vec3(1.0, 2.0, 3.0).dot_product(&Vec3(4.0, 5.0, 6.0)), 32.0);
    assert_eq!(
        Vec4(1.0, 2.0, 3.0, 4.0).dot_product(&Vec4(5.0, 6.0, 7.0, 8.0)),
        70.0
    );
}

#[test]
fn magnitude_of_worked_examples() {
    assert_eq!(Vec2(3.0, 4.0).magnitude(f64::sqrt), 5.0);
    assert_eq!(Vec2(-3.0, 4.0).magnitude(f64::sqrt), 5.0);
    assert_eq!(Vec2(-3.0, -4.0).magnitude(f64::sqrt), 5.0);
    assert_eq!(Vec3(2.0, 3.0, 6.0).magnitude(f64::sqrt), 7.0);
    assert_eq!(Vec4(1.0, 2.0, 2.0, 4.0).mag(f64::sqrt), 5.0);
}

#[test]
fn magnitude_is_zero_only_for_the_zero_vector() {
    assert_eq!(Vec2(0.0, 0.0).magnitude(f64::sqrt), 0.0);
    assert_eq!(Vec3(0.0, 0.0, 0.0).magnitude(f64::sqrt), 0.0);
    assert_eq!(Vec4(0.0, 0.0, 0.0, 0.0).magnitude(f64::sqrt), 0.0);
    assert!(Vec2(0.0, 0.5).magnitude(f64::sqrt) > 0.0);
    assert!(Vec3(0.0, 0.0, -0.5).magnitude(f64::sqrt) > 0.0);
    assert!(Vec4(0.0, 0.0, 0.0, 0.5).magnitude(f64::sqrt) > 0.0);
}

#[test]
fn normalized_has_magnitude_one() {
    let n = Vec2(3.0, 0.0).normalized(f64::sqrt);
    assert_eq!(n, Some(Vec2(1.0, 0.0)));
    assert_eq!(Vec2(1.0, 0.0).magnitude(f64::sqrt), 1.0);
    let n = Vec3(0.0, -5.0, 0.0).normalized(f64::sqrt);
    assert_eq!(n, Some(Vec3(0.0, -1.0, 0.0)));
    assert_eq!(Vec3(0.0, -1.0, 0.0).magnitude(f64::sqrt), 1.0);
    assert_eq!(Vec2(3.0, 4.0).normalized(f64::sqrt), Some(Vec2(0.6, 0.8)));
}

#[test]
fn normalized_by_divides_the_direction() {
    assert_eq!(Vec2(2.0, 4.0).normalized_by(2.0), Vec2(1.0, 2.0));
    assert_eq!(Vec3(2.0, 4.0, 6.0).normalized_by(2.0), Vec3(1.0, 2.0, 3.0));
    assert_eq!(
        Vec4(2.0, 4.0, 6.0, 8.0).normalized_by(2.0),
        Vec4(1.0, 2.0, 3.0, 8.0)
    );
}

#[test]
fn zero_vector_has_no_direction() {
    assert_eq!(Vec2(0.0, 0.0).normalized(f64::sqrt), None);
    assert_eq!(Vec3(0.0, 0.0, 0.0).normalized(f64::sqrt), None);
    assert_eq!(Vec2(0.0, 0.0).dot(&Vec2(1.0, 0.0), f64::sqrt), None);
    assert_eq!(Vec2(1.0, 0.0).dot(&Vec2(0.0, 0.0), f64::sqrt), None);
    assert_eq!(
        Vec2(0.0, 0.0).angle(&Vec2(0.0, 0.0), f64::sqrt, f64::acos),
        None
    );
}

#[test]
fn distances() {
    assert_eq!(Vec2(0.0, 0.0).distance(&Vec2(3.0, 4.0), f64::sqrt), 5.0);
    assert_eq!(Vec2(3.0, 4.0).distance(&Vec2(0.0, 0.0), f64::sqrt), 5.0);
    assert_eq!(Vec2(3.0, 4.0).dist(&Vec2(3.0, 4.0), f64::sqrt), 0.0);
    assert_eq!(
        Vec3(1.0, 1.0, 1.0).distance(&Vec3(3.0, 4.0, 7.0), f64::sqrt),
        7.0
    );
    assert_eq!(Vec2(1.0, 1.0).offset_to(&Vec2(4.0, 5.0)), Vec2(3.0, 4.0));
}

#[test]
fn angles_of_special_pairs() {
    let a = Vec2(0.0, 3.0);
    assert_eq!(a.angle(&a, f64::sqrt, f64::acos), Some(0.0));
    assert_eq!(a.angle(&-a, f64::sqrt, f64::acos), Some(PI));
    assert_eq!(
        a.angle(&Vec2(4.0, 0.0), f64::sqrt, f64::acos),
        Some(PI / 2.0)
    );
    assert_eq!(
        Vec2(2.0, 2.0).angle(&Vec2(3.0, -3.0), f64::sqrt, f64::acos),
        Some(PI / 2.0)
    );
    let b = Vec3(0.0, 0.0, 2.0);
    assert_eq!(
        b.angle(&Vec3(5.0, 0.0, 0.0), f64::sqrt, f64::acos),
        Some(PI / 2.0)
    );
}

#[test]
fn cross_product_of_the_axes() {
    let x = Vec3(1.0, 0.0, 0.0);
    let y = Vec3(0.0, 1.0, 0.0);
    let z = Vec3(0.0, 0.0, 1.0);
    assert_eq!(x.cross(&y), z);
    assert_eq!(y.cross(&z), x);
    assert_eq!(z.cross(&x), y);
    assert_eq!(x.cross(&x), Vec3(0.0, 0.0, 0.0));
}

#[test]
fn cross_product_changes_sign_when_swapped() {
    let a = Vec3(1.0, 2.0, 3.0);
    let b = Vec3(-4.0, 0.5, 6.0);
    assert_eq!(a.cross(&b), Vec3(10.5, -18.0, 8.5));
    assert_eq!(b.cross(&a), -(a.cross(&b)));
}

#[test]
fn quarter_turns() {
    let v = Vec3(1.0, 2.0, 3.0);
    assert_eq!(v.rot_x(0.0, 1.0), Vec3(1.0, 3.0, -2.0));
    assert_eq!(v.rot_y(0.0, 1.0), Vec3(-3.0, 2.0, 1.0));
    assert_eq!(v.rot_z(0.0, 1.0), Vec3(2.0, -1.0, 3.0));
    assert_eq!(v.rot_x(1.0, 0.0), v);
    let w = Vec4(1.0, 2.0, 3.0, 9.0);
    assert_eq!(w.rot_x(0.0, 1.0), Vec4(1.0, 3.0, -2.0, 9.0));
    assert_eq!(w.rot_y(0.0, 1.0), Vec4(-3.0, 2.0, 1.0, 9.0));
    assert_eq!(w.rot_z(0.0, 1.0), Vec4(2.0, -1.0, 3.0, 9.0));
}

#[test]
fn rotation_about_all_axes_in_turn() {
    let v = Vec3(1.0, 2.0, 3.0);
    let cos = Vec3(0.0, 0.0, 0.0);
    let sin = Vec3(1.0, 1.0, 1.0);
    let by_steps = v.rot_x(0.0, 1.0).rot_y(0.0, 1.0).rot_z(0.0, 1.0);
    assert_eq!(v.rot(&cos, &sin), by_steps);
    assert_eq!(by_steps, Vec3(3.0, -2.0, 1.0));
    let w = Vec4(1.0, 2.0, 3.0, 9.0);
    let cos4 = Vec4(0.0, 0.0, 0.0, 5.0);
    let sin4 = Vec4(1.0, 1.0, 1.0, 5.0);
    assert_eq!(w.rot(&cos4, &sin4), Vec4(3.0, -2.0, 1.0, 9.0));
    let none = Vec3(1.0, 1.0, 1.0);
    assert_eq!(v.rot(&none, &Vec3(0.0, 0.0, 0.0)), v);
}

#[test]
fn rotation_by_an_angle() {
    let angle = PI / 6.0;
    let v = Vec3(1.0, 2.0, 3.0);
    let (c, s) = (f64::cos(angle), f64::sin(angle));
    assert_eq!(
        v.rot_z(c, s),
        Vec3(1.0 * c + 2.0 * s, 1.0 * -s + 2.0 * c, 3.0)
    );
    assert_eq!(
        v.rot_x(c, s),
        Vec3(1.0, 2.0 * c + 3.0 * s, 2.0 * -s + 3.0 * c)
    );
}

#[test]
fn homogeneous_coordinates() {
    let v = Vec3(1.0, 2.0, 3.0);
    assert_eq!(v.as_homogenous(7.0), Vec4(1.0, 2.0, 3.0, 7.0));
    assert_eq!(v.as_homogenous_vector(), Vec4(1.0, 2.0, 3.0, 1.0));
    assert_eq!(v.as_homogenous_point(), Vec4(1.0, 2.0, 3.0, 0.0));
    let m = v.as_mat4(1.0);
    assert_eq!((m.rows(), m.cols()), (4, 1));
    assert_eq!(m.get_col(1), vec![1.0, 2.0, 3.0, 1.0]);
}

#[test]
fn identity_leaves_a_column_as_it_is() {
    let v = Vec3(1.5, -2.0, 3.25);
    let column = v.as_mat4(1.0);
    let product = Matrix::id4() * column;
    let back = Vec4::from_matrix(&product);
    assert_eq!(back, Vec4(1.5, -2.0, 3.25, 1.0));
    assert_eq!(Vec3::from(back), v);
}

#[test]
fn column_matrices_read_back() {
    let v3 = Vec3(1.0, 2.0, 3.0);
    assert_eq!(Vec3::from_matrix(&Matrix::from(v3)), v3);
    let v4 = Vec4(1.0, 2.0, 3.0, 4.0);
    let m = Matrix::from(v4);
    assert_eq!((m.rows(), m.cols()), (4, 1));
    assert_eq!(Vec4::from_matrix(&m), v4);
    let row = Matrix::from_rows(vec![vec![1.0, 2.0, 3.0, 4.0]]);
    assert_eq!(Vec4::from_matrix(&row), v4);
}

#[test]
fn only_single_rows_and_columns_become_vectors() {
    let m3x1: Matrix<f64> = Matrix::new(3, 1);
    let m1x3: Matrix<f64> = Matrix::new(1, 3);
    let m4x1: Matrix<f64> = Matrix::new(4, 1);
    let m1x4: Matrix<f64> = Matrix::new(1, 4);
    let m3x3: Matrix<f64> = Matrix::new(3, 3);
    let m1x1: Matrix<f64> = Matrix::new(1, 1);
    assert!(Vec3::can_be_from(&m3x1));
    assert!(Vec3::can_be_from(&m1x3));
    assert!(!Vec3::can_be_from(&m4x1));
    assert!(!Vec3::can_be_from(&m1x4));
    assert!(!Vec3::can_be_from(&m3x3));
    assert!(!Vec3::can_be_from(&m1x1));
    assert!(Vec4::can_be_from(&m4x1));
    assert!(Vec4::can_be_from(&m1x4));
    assert!(!Vec4::can_be_from(&m3x1));
    assert!(!Vec4::can_be_from(&m3x3));
}

#[test]
fn new_matrix_holds_zeros() {
    let m: Matrix<f64> = Matrix::new(2, 3);
    assert_eq!((m.rows(), m.cols()), (2, 3));
    assert_eq!(m.get_row(1), vec![0.0, 0.0, 0.0]);
    assert_eq!(m.get_row(2), vec![0.0, 0.0, 0.0]);
    assert_eq!(m.get_col(3), vec![0.0, 0.0]);
    let e: Matrix<f64> = Matrix::new(0, 5);
    assert_eq!((e.rows(), e.cols()), (0, 5));
    assert_eq!(e.get_col(5), Vec::<f64>::new());
}

#[test]
fn set_and_get_count_from_one() {
    let mut m: Matrix<f64> = Matrix::new(2, 3);
    m.set((1, 1), 11.0);
    m.set((1, 3), 13.0);
    m.set((2, 2), 22.0);
    assert_eq!(m.get((1, 1)), 11.0);
    assert_eq!(m.get((1, 3)), 13.0);
    assert_eq!(m.get((2, 2)), 22.0);
    assert_eq!(m.get((2, 3)), 0.0);
    assert_eq!(m.get_row(1), vec![11.0, 0.0, 13.0]);
    assert_eq!(m.get_row(2), vec![0.0, 22.0, 0.0]);
    assert_eq!(m.get_col(2), vec![0.0, 22.0]);
    assert_eq!(m, Matrix::from_rows(vec![vec![11.0, 0.0, 13.0], vec![0.0, 22.0, 0.0]]));
}

#[test]
fn index_checks() {
    let m: Matrix<f64> = Matrix::new(2, 3);
    assert!(!m.verify_row_index(0));
    assert!(m.verify_row_index(1));
    assert!(m.verify_row_index(2));
    assert!(!m.verify_row_index(3));
    assert!(!m.verify_col_index(0));
    assert!(m.verify_col_index(3));
    assert!(!m.verify_col_index(4));
    assert!(m.verify_mat_index((2, 3)));
    assert!(!m.verify_mat_index((3, 2)));
    assert!(!m.verify_mat_index((0, 1)));
    assert!(!m.verify_mat_index((1, 0)));
}

#[test]
fn content_checks() {
    let mut m: Matrix<f64> = Matrix::new(2, 2);
    assert!(m.verify_content(&vec![vec![1.0, 2.0], vec![3.0, 4.0]]));
    assert!(!m.verify_content(&vec![vec![1.0, 2.0]]));
    assert!(!m.verify_content(&vec![vec![1.0, 2.0], vec![3.0]]));
    assert!(!m.verify_content(&vec![vec![1.0], vec![3.0, 4.0]]));
    assert!(!m.verify_content(&vec![vec![1.0, 2.0, 3.0], vec![4.0, 5.0, 6.0]]));
    assert!(!m.verify_content(&vec![]));
    m.set_content(vec![vec![1.0, 2.0], vec![3.0, 4.0]]);
    assert_eq!(m.get((2, 1)), 3.0);
    assert_eq!((m.rows(), m.cols()), (2, 2));
    assert!(is_rectangular(&vec![vec![1.0, 2.0], vec![3.0, 4.0]]));
    assert!(is_rectangular(&Vec::<Vec<f64>>::new()));
    assert!(!is_rectangular(&vec![vec![1.0, 2.0], vec![3.0]]));
    let e = Matrix::from_rows(Vec::<Vec<f64>>::new());
    assert_eq!((e.rows(), e.cols()), (0, 0));
}

#[test]
fn matrix_equality() {
    let a = Matrix::from_rows(vec![vec![1.0, 2.0], vec![3.0, 4.0]]);
    let b = Matrix::from_rows(vec![vec![1.0, 2.0], vec![3.0, 4.0]]);
    let c = Matrix::from_rows(vec![vec![1.0, 2.0], vec![3.0, 5.0]]);
    let d = Matrix::from_rows(vec![vec![1.0, 2.0, 3.0, 4.0]]);
    assert!(a == b);
    assert!(a != c);
    assert!(a != d);
    let z1: Matrix<f64> = Matrix::new(0, 2);
    let z2: Matrix<f64> = Matrix::new(0, 3);
    assert!(z1 != z2);
}

#[test]
fn product_of_two_by_two() {
    let a = Matrix::from_rows(vec![vec![1.0, 2.0], vec![3.0, 4.0]]);
    let b = Matrix::from_rows(vec![vec![5.0, 6.0], vec![7.0, 8.0]]);
    let expected = Matrix::from_rows(vec![vec![19.0, 22.0], vec![43.0, 50.0]]);
    assert_eq!(Matrix::multiply(&a, &b), expected);
    assert_eq!(&a * &b, expected);
    assert_eq!(&a * Matrix::from_rows(vec![vec![5.0, 6.0], vec![7.0, 8.0]]), expected);
    assert_eq!(Matrix::from_rows(vec![vec![1.0, 2.0], vec![3.0, 4.0]]) * &b, expected);
    assert_eq!(a * b, expected);
}

#[test]
fn product_takes_its_shape_from_both() {
    let a = Matrix::from_rows(vec![vec![1.0, 2.0, 3.0]]);
    let b = Matrix::from_rows(vec![vec![4.0], vec![5.0], vec![6.0]]);
    assert_eq!(&a * &b, Matrix::from_rows(vec![vec![32.0]]));
    let outer = &b * &a;
    assert_eq!((outer.rows(), outer.cols()), (3, 3));
    assert_eq!(outer.get_row(2), vec![5.0, 10.0, 15.0]);
    let e: Matrix<f64> = Matrix::new(2, 0);
    let f: Matrix<f64> = Matrix::new(0, 2);
    assert_eq!(&e * &f, Matrix::new(2, 2));
}

#[test]
fn product_needs_matching_shapes() {
    let a: Matrix<f64> = Matrix::new(2, 3);
    let b: Matrix<f64> = Matrix::new(2, 3);
    assert!(a.cols() != b.rows());
    let c: Matrix<f64> = Matrix::new(3, 2);
    assert!(a.cols() == c.rows());
    let p = &a * &c;
    assert_eq!((p.rows(), p.cols()), (2, 2));
}

#[test]
fn scale_and_translate() {
    let s = Matrix::m4_scale(Vec3(2.0, 3.0, 4.0));
    assert_eq!(s.get_row(1), vec![2.0, 0.0, 0.0, 0.0]);
    assert_eq!(s.get_row(2), vec![0.0, 3.0, 0.0, 0.0]);
    assert_eq!(s.get_row(3), vec![0.0, 0.0, 4.0, 0.0]);
    assert_eq!(s.get_row(4), vec![0.0, 0.0, 0.0, 1.0]);
    let t = Matrix::m4_translate(Vec3(5.0, 6.0, 7.0));
    assert_eq!(t.get_row(1), vec![1.0, 0.0, 0.0, 5.0]);
    assert_eq!(t.get_row(2), vec![0.0, 1.0, 0.0, 6.0]);
    assert_eq!(t.get_row(3), vec![0.0, 0.0, 1.0, 7.0]);
    assert_eq!(t.get_row(4), vec![0.0, 0.0, 0.0, 1.0]);
    let moved = t * s * Vec3(1.0, 1.0, 1.0).as_mat4(1.0);
    assert_eq!(Vec4::from_matrix(&moved), Vec4(7.0, 9.0, 11.0, 1.0));
}

#[test]
fn rotation_matrices() {
    let z = Matrix::m4_rotate_z(0.5, 0.25);
    assert_eq!(z.get_row(1), vec![0.5, 0.25, 0.0, 0.0]);
    assert_eq!(z.get_row(2), vec![-0.25, 0.5, 0.0, 0.0]);
    assert_eq!(z.get_row(3), vec![0.0, 0.0, 1.0, 0.0]);
    assert_eq!(z.get_row(4), vec![0.0, 0.0, 0.0, 1.0]);
    let x = Matrix::m4_rotate_x(0.5, 0.25);
    assert_eq!(x.get_row(1), vec![1.0, 0.0, 0.0, 0.0]);
    assert_eq!(x.get_row(2), vec![0.0, 0.5, 0.25, 0.0]);
    assert_eq!(x.get_row(3), vec![0.0, -0.25, 0.5, 0.0]);
    assert_eq!(x.get_row(4), vec![0.0, 0.0, 0.0, 1.0]);
    let y = Matrix::m4_rotate_y(0.5, 0.25);
    assert_eq!(y.get_row(1), vec![0.5, 0.0, -0.25, 0.0]);
    assert_eq!(y.get_row(2), vec![0.0, 1.0, 0.0, 0.0]);
    assert_eq!(y.get_row(3), vec![0.25, 0.0, 0.5, 0.0]);
    assert_eq!(y.get_row(4), vec![0.0, 0.0, 0.0, 1.0]);
}

#[test]
fn rotation_matrix_agrees_with_the_vector_rotation() {
    let v = Vec3(1.0, 2.0, 3.0);
    let (c, s) = (0.0, 1.0);
    let by_matrix = Matrix::m4_rotate_x(c, s) * v.as_mat4(1.0);
    assert_eq!(Vec3::from(Vec4::from_matrix(&by_matrix)), v.rot_x(c, s));
    let by_matrix = Matrix::m4_rotate_y(c, s) * v.as_mat4(1.0);
    assert_eq!(Vec3::from(Vec4::from_matrix(&by_matrix)), v.rot_y(c, s));
    let by_matrix = Matrix::m4_rotate_z(c, s) * v.as_mat4(1.0);
    assert_eq!(Vec3::from(Vec4::from_matrix(&by_matrix)), v.rot_z(c, s));
}

#[test]
fn test_invalid_swizzle() {
    let v = Vec3(3.0, 5.0, 10.0);
    assert!(!v.can_swizzle::<Vec3<f64>>("xx"));
}

#[test]
fn test_angle_of_zero_vecs() {
    let v1 = Vec2(0.0, 0.0);
    let v2 = Vec2(0.0, 0.0);
    assert_eq!(v1.angle(&v2, f64::sqrt, f64::acos), None);
}

#[test]
fn test_div_assign_v2_zero_by_zero() {
    let v = Vec2(0.0, 0.0);
    assert!(v.zero_by_zero(&Vec2(0.0, 0.0)));
}

#[test]
fn test_div_v2_zero_by_zero() {
    assert!(Vec2(0.0, 1.0).zero_by_zero(&Vec2(0.0, 1.0)));
}

#[test]
fn test_div_assign_v3_zero_by_zero() {
    let v = Vec3(0.0, 1.0, 1.0);
    assert!(v.zero_by_zero(&Vec3(0.0, 0.0, 0.0)));
}

#[test]
fn test_div_v3_zero_by_zero() {
    assert!(Vec3(0.0, 0.0, 0.0).zero_by_zero(&Vec3(0.0, 0.0, 0.0)));
}

#[test]
fn test_mod_zero() {
    assert!(Vec2(0.0, 0.0).has_zero());
}

#[test]
fn test_mod_assign_zero() {
    assert!(equals_zero(0.0));
}

#[test]
fn chained_products_and_swizzles() {
    let v_mul = Vec2(0.0, 0.0) * 2.0 * Vec3(1.0, 1.0, 1.0).s2("xy") * 6.0;
    assert_eq!(v_mul, Vec2(0.0, 0.0));
    let v_mul_2 = Vec2::scale(3.0, Vec2(2.0, 2.0)) * Vec3(4.0, 4.0, 4.0).s2("xy");
    assert_eq!(v_mul_2, Vec2(24.0, 24.0));
    let v3_swz = Vec3(3.0, 5.0, 7.0);
    assert_eq!(v3_swz.s3("xxx"), Vec3(3.0, 3.0, 3.0));
    assert_eq!(v3_swz.s3("yyy"), Vec3(5.0, 5.0, 5.0));
    assert_eq!(v3_swz.s2("xx"), Vec2(3.0, 3.0));
    assert_eq!(v3_swz.s2("yy"), Vec2(5.0, 5.0));
    assert_eq!(v3_swz.s3("rgb"), v3_swz);
    let mut mod_assign_v2_f = Vec2(5.0, 8.0);
    mod_assign_v2_f %= 5.0;
    assert_eq!(mod_assign_v2_f, Vec2(0.0, 3.0));
}

#[test]
fn four_components_cut_to_two() {
    assert_eq!(Vec2::from(Vec4(1.0, 2.0, 3.0, 4.0)), Vec2(1.0, 2.0));
}
