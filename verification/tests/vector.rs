use pbrtrs_lib::dims::Vec2;
use pbrtrs_lib::dims::Vec3;
use pbrtrs_lib::dims::Vec4;
use pbrtrs_lib::vector::Vector;

#[test]
fn test_construction() {
    let v2 = Vec2::<i32>::new(0);
    assert_eq!(&v2.data[..], &vec![0, 0]);

    let v3 = Vec3::<i32>::new(10);
    assert_eq!(&v3.data[..], &vec![10, 10, 10]);

    let v4 = Vec4::<i32>::new(-1);
    assert_eq!(&v4.data[..], &vec![-1, -1, -1, -1]);
}

#[test]
fn test_defaults() {
    let v3 = Vec3::<i32>::default();
    assert_eq!(&v3.data[..], &vec![i32::default(); 3]);
}

#[test]
fn test_accessors() {
    let v2 = Vec2::<i32>::elements(1, 2);
    assert_eq!(v2.x(), 1);
    assert_eq!(v2.y(), 2);

    let v3 = Vec3::<i32>::elements(4, 5, 6);
    assert_eq!(v3.x(), 4);
    assert_eq!(v3.y(), 5);
    assert_eq!(v3.z(), 6);

    let v4 = Vec4::<i32>::elements(7, 8, 9, 10);
    assert_eq!(v4.x(), 7);
    assert_eq!(v4.y(), 8);
    assert_eq!(v4.z(), 9);
    assert_eq!(v4.w(), 10);
}

#[test]
fn test_ops() {
    let v = Vec3::<i32>::elements(1, 2, 3);
    let u = Vec3::<i32>::elements(4, 5, 6);
    assert_eq!(v + u, Vec3::<i32>::elements(5, 7, 9));

    let mut v = Vec3::<i32>::elements(1, 2, 3);
    v += Vec3::<i32>::elements(1, 1, 1);
    assert_eq!(v, Vec3::<i32>::elements(2, 3, 4));

    let v = Vec3::<i32>::elements(1, 2, 3);
    let u = Vec3::<i32>::elements(4, 5, 6);
    assert_eq!(v - u, Vec3::<i32>::elements(-3, -3, -3));

    let mut v = Vec3::<i32>::elements(1, 2, 3);
    v -= Vec3::<i32>::elements(1, 1, 1);
    assert_eq!(v, Vec3::<i32>::elements(0, 1, 2));

    let v = Vec3::<i32>::elements(5, 6, 7);
    assert_eq!(v * 10, Vec3::<i32>::elements(50, 60, 70));

    let mut v = Vec3::<i32>::elements(5, 6, 7);
    v *= 5;
    assert_eq!(v, Vec3::<i32>::elements(25, 30, 35));

    let v = Vec3::<i32>::elements(10, 20, 30);
    assert_eq!(v / 10, Vec3::<i32>::elements(1, 2, 3));

    let mut v = Vec3::<i32>::elements(50, 50, 50);
    v /= 5;
    assert_eq!(v, Vec3::<i32>::elements(10, 10, 10));
}

#[test]
fn test_cross() {
    let x = Vec3::<i32>::elements(1, 0, 0);
    let y = Vec3::<i32>::elements(0, 1, 0);
    assert_eq!(x.cross(&y), Vec3::<i32>::elements(0, 0, 1));
}

#[test]
fn test_dot() {
    assert_eq!(
        Vec3::<i32>::elements(1, 2, 3).dot(&Vec3::<i32>::elements(3, 4, 5)),
        26
    );
    assert_eq!(
        Vec3::<i32>::elements(-1, -2, -3).abs_dot(&Vec3::<i32>::elements(3, 4, 5)),
        26
    );
    assert_eq!(Vec3::<i32>::elements(2, 3, 4).mag2(), 29);
}

#[test]
fn test_min_max() {
    assert_eq!(Vec3::<i32>::elements(10, 50, 3).max_component(), (1, 50));
    assert_eq!(Vec3::<i32>::elements(10, 50, 3).min_component(), (2, 3));
}

#[test]
fn test_from_tuple() {
    assert_eq!(Vec2::<i32>::elements(1, 3), (1, 3).into());
    assert_eq!(Vec3::<i32>::elements(1, 2, 3), (1, 2, 3).into());
    assert_eq!(Vec4::<i32>::elements(1, 2, 3, 4), (1, 2, 3, 4).into());
}

#[test]
fn test_faceforward() {
    // Components are counted in halves: 2 stands for 1.0, 1 for 0.5.
    let normal = Vec3::<i32>::elements(0, 0, 2);
    assert_eq!(
        normal.face_towards_same_hemisphere(&(0, 1, -1).into()),
        (0, 0, -2).into()
    );
    assert_eq!(
        normal.face_towards_same_hemisphere(&(0, 1, 1).into()),
        (0, 0, 2).into()
    );
}

#[test]
fn test_abs_floor_ceil() {
    assert_eq!(Vec3::<i32>::elements(-1, -2, -3).abs(), (1, 2, 3).into());
}

#[test]
fn test_distance() {
    assert_eq!(
        Vec3::<i32>::elements(1, 0, 0).square_distance_to(&(5, 0, 0).into()),
        16
    );
}

#[test]
fn add_then_sub_gives_back_the_vector() {
    let a = Vec3::<i64>::elements(7, -2, 1_000_000_007);
    let b = Vec3::<i64>::elements(-30, 12, 5);
    assert_eq!(a + b - b, a);
    let c = Vector::<i32, 5> { data: [i32::MAX - 1, i32::MIN + 4, 0, -9, 9] };
    let d = Vector::<i32, 5> { data: [1, -4, 0, 9, -9] };
    assert_eq!(c + d, Vector { data: [i32::MAX, i32::MIN, 0, 0, 0] });
    assert_eq!(c + d - d, c);
}

#[test]
fn in_place_operators_agree_with_the_operators() {
    let a = Vec4::<i32>::elements(9, -8, 7, -6);
    let b = Vec4::<i32>::elements(1, 2, 3, 4);
    let mut c = a;
    c += b;
    assert_eq!(c, a + b);
    let mut c = a;
    c -= b;
    assert_eq!(c, a - b);
    let mut c = a;
    c *= -3;
    assert_eq!(c, a * -3);
    assert_eq!(c, Vec4::<i32>::elements(-27, 24, -21, 18));
    let mut c = a;
    c /= 2;
    assert_eq!(c, a / 2);
}

#[test]
fn division_rounds_toward_zero() {
    let a = Vec4::<i32>::elements(7, -7, 1, -1);
    assert_eq!(a / 2, Vec4::<i32>::elements(3, -3, 0, 0));
    assert_eq!(a / -2, Vec4::<i32>::elements(-3, 3, 0, 0));
    assert_eq!(
        Vec2::<i64>::elements(i64::MIN, i64::MAX) / 1,
        Vec2::<i64>::elements(i64::MIN, i64::MAX)
    );
}

#[test]
fn negation_is_componentwise() {
    assert_eq!(
        -Vec3::<i32>::elements(1, -2, 0),
        Vec3::<i32>::elements(-1, 2, 0)
    );
    assert_eq!(
        -Vec2::<i32>::elements(i32::MAX, -i32::MAX),
        Vec2::<i32>::elements(-i32::MAX, i32::MAX)
    );
}

#[test]
fn dot_is_symmetric() {
    let a = Vec4::<i64>::elements(3, -1, 4, 1);
    let b = Vec4::<i64>::elements(-5, 9, 2, 6);
    assert_eq!(a.dot(&b), -15 - 9 + 8 + 6);
    assert_eq!(a.dot(&b), b.dot(&a));
    assert_eq!(a.mag2(), a.dot(&a));
    assert_eq!(a.mag2(), 27);
}

#[test]
fn mag2_is_the_square_of_the_magnitude() {
    assert_eq!(Vec2::<i32>::elements(3, 4).mag2(), 25);
    assert_eq!(Vec3::<i32>::elements(5, 3, 15).mag2(), 259);
    assert_eq!(Vec3::<i64>::elements(-3_000_000_000, 0, 4).mag2(), 9_000_000_000_000_000_016);
}

#[test]
fn dot_of_no_components_is_the_default() {
    let a = Vector::<i32, 0> { data: [] };
    assert_eq!(a.dot(&a), 0);
    assert_eq!(a.mag2(), 0);
}

#[test]
fn abs_dot_takes_the_absolute_value() {
    let a = Vec2::<i32>::elements(2, 3);
    assert_eq!(a.abs_dot(&Vec2::<i32>::elements(-4, 1)), 5);
    assert_eq!(a.abs_dot(&Vec2::<i32>::elements(4, -1)), 5);
    assert_eq!(a.abs_dot(&Vec2::<i32>::elements(3, -2)), 0);
}

#[test]
fn cross_changes_sign_with_the_order() {
    let a = Vec3::<i32>::elements(2, -3, 5);
    let b = Vec3::<i32>::elements(7, 1, -4);
    assert_eq!(a.cross(&b), Vec3::<i32>::elements(7, 43, 23));
    assert_eq!(a.cross(&b), -b.cross(&a));
    assert_eq!(a.cross(&a), Vec3::<i32>::new(0));
}

#[test]
fn cross_of_the_axes() {
    let x = Vec3::<i64>::elements(1, 0, 0);
    let y = Vec3::<i64>::elements(0, 1, 0);
    let z = Vec3::<i64>::elements(0, 0, 1);
    assert_eq!(x.cross(&y), z);
    assert_eq!(y.cross(&z), x);
    assert_eq!(z.cross(&x), y);
    assert_eq!(y.cross(&x), -z);
}

#[test]
fn min_and_max_component_name_the_first_of_equals() {
    let v = Vec4::<i32>::elements(5, 2, 2, 5);
    assert_eq!(v.min_component(), (1, 2));
    assert_eq!(v.max_component(), (0, 5));
    let w = Vector::<i32, 5> { data: [-1, -7, 3, -7, 3] };
    assert_eq!(w.min_component(), (1, -7));
    assert_eq!(w.max_component(), (2, 3));
}

#[test]
fn min_and_max_component_keep_the_seed_where_nothing_beats_it() {
    assert_eq!(Vec3::<i32>::new(i32::MAX).min_component(), (0, i32::MAX));
    assert_eq!(Vec3::<i32>::new(i32::MIN).max_component(), (0, i32::MIN));
    assert_eq!(
        Vec3::<i32>::elements(i32::MAX, i32::MAX, 4).min_component(),
        (2, 4)
    );
    let none = Vector::<i64, 0> { data: [] };
    assert_eq!(none.min_component(), (0, i64::MAX));
    assert_eq!(none.max_component(), (0, i64::MIN));
}

#[test]
fn face_towards_same_hemisphere_keeps_a_vector_at_right_angles() {
    let n = Vec3::<i32>::elements(0, 0, 1);
    assert_eq!(
        n.face_towards_same_hemisphere(&Vec3::<i32>::elements(1, 0, 0)),
        n
    );
    let m = Vec2::<i64>::elements(3, -4);
    assert_eq!(
        m.face_towards_same_hemisphere(&Vec2::<i64>::elements(-1, 1)),
        Vec2::<i64>::elements(-3, 4)
    );
    assert_eq!(
        m.face_towards_same_hemisphere(&Vec2::<i64>::elements(1, -1)),
        m
    );
}

#[test]
fn square_distance_is_symmetric() {
    let a = Vec3::<i32>::elements(1, 2, 3);
    let b = Vec3::<i32>::elements(4, -2, 3);
    assert_eq!(a.square_distance_to(&b), 25);
    assert_eq!(b.square_distance_to(&a), 25);
    assert_eq!(a.square_distance_to(&a), 0);
}

#[test]
fn abs_is_componentwise() {
    assert_eq!(
        Vec4::<i64>::elements(-5, 0, 5, i64::MIN + 1).abs(),
        Vec4::<i64>::elements(5, 0, 5, i64::MAX)
    );
}

#[test]
fn accessors_read_the_components_in_order() {
    let v = Vec4::<i64>::from((-1, -2, -3, -4));
    assert_eq!((v.x(), v.y(), v.z(), v.w()), (-1, -2, -3, -4));
    assert_eq!(v.data, [-1, -2, -3, -4]);
    let u = Vec2::<i32>::from((8, 9));
    assert_eq!((u.x(), u.y()), (8, 9));
    let w = Vec3::<i32>::from((1, 2, 3));
    assert_eq!((w.x(), w.y(), w.z()), (1, 2, 3));
}
