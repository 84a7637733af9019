use vec3::Vec3;

#[test]
fn add_by_reference_forms_agree() {
    let u = Vec3 { x: 10, y: -20, z: 30 };
    let v = Vec3 { x: 1, y: 2, z: -3 };
    let expected = Vec3 { x: 11, y: -18, z: 27 };
    assert_eq!(u + v, expected);
    assert_eq!(&u + &v, expected);
    assert_eq!(u + &v, expected);
    assert_eq!(u, Vec3 { x: 10, y: -20, z: 30 });
    assert_eq!(v, Vec3 { x: 1, y: 2, z: -3 });
}

#[test]
fn sub_all_forms() {
    let u = Vec3 { x: 5, y: 0, z: -5 };
    let v = Vec3 { x: 2, y: 3, z: 4 };
    let expected = Vec3 { x: 3, y: -3, z: -9 };
    assert_eq!(u - v, expected);
    assert_eq!(&u - &v, expected);
    assert_eq!(u - &v, expected);
    assert_eq!(u - 5, Vec3 { x: 0, y: -5, z: -10 });
}

#[test]
fn mul_all_forms() {
    let u = Vec3 { x: 2, y: -3, z: 4 };
    let v = Vec3 { x: 5, y: 6, z: -7 };
    let expected = Vec3 { x: 10, y: -18, z: -28 };
    assert_eq!(u * v, expected);
    assert_eq!(&u * &v, expected);
    assert_eq!(u * &v, expected);
    assert_eq!(u * 3, Vec3 { x: 6, y: -9, z: 12 });
}

#[test]
fn div_all_forms_truncate_toward_zero() {
    let u = Vec3 { x: 7, y: -7, z: 9 };
    let v = Vec3 { x: 2, y: 2, z: -4 };
    let expected = Vec3 { x: 3, y: -3, z: -2 };
    assert_eq!(u / v, expected);
    assert_eq!(&u / &v, expected);
    assert_eq!(u / &v, expected);
    assert_eq!(u / 2, Vec3 { x: 3, y: -3, z: 4 });
}

#[test]
fn in_place_matches_non_mutating() {
    let u = Vec3 { x: 12, y: -8, z: 5 };
    let v = Vec3 { x: 3, y: 4, z: -5 };
    let s = 2;

    let mut a = u;
    a.add_assign(v);
    assert_eq!(a, u + v);
    let mut a = u;
    a.add_assign_scalar(s);
    assert_eq!(a, u + s);

    let mut b = u;
    b.sub_assign(v);
    assert_eq!(b, u - v);
    let mut b = u;
    b.sub_assign_scalar(s);
    assert_eq!(b, u - s);

    let mut c = u;
    c.mul_assign(v);
    assert_eq!(c, u * v);
    let mut c = u;
    c.mul_assign_scalar(s);
    assert_eq!(c, u * s);

    let mut d = u;
    d.div_assign(v);
    assert_eq!(d, u / v);
    assert_eq!(d, Vec3 { x: 4, y: -2, z: -1 });
    let mut d = u;
    d.div_assign_scalar(s);
    assert_eq!(d, u / s);
    assert_eq!(d, Vec3 { x: 6, y: -4, z: 2 });
}

#[test]
fn negation_twice_gives_back_the_vector() {
    let u = Vec3 { x: 7, y: -11, z: 0 };
    assert_eq!(-(-u), u);
    let w: Vec3<i8> = Vec3 { x: 127, y: -127, z: 1 };
    assert_eq!(-w, Vec3 { x: -127, y: 127, z: -1 });
    assert_eq!(-(-w), w);
}

#[test]
fn index_reads_each_field() {
    let u = Vec3 { x: 4, y: 5, z: 6 };
    assert_eq!(u[0], u.x);
    assert_eq!(u[1], u.y);
    assert_eq!(u[2], u.z);
}

#[test]
fn index_write_touches_one_field() {
    let mut u = Vec3 { x: 4, y: 5, z: 6 };
    *u.index_mut(0) = -1;
    assert_eq!(u, Vec3 { x: -1, y: 5, z: 6 });
    *u.index_mut(1) = 9;
    assert_eq!(u[1], 9);
    assert_eq!(u, Vec3 { x: -1, y: 9, z: 6 });
}

#[test]
fn widening_keeps_values() {
    let narrow: Vec3<i8> = Vec3 { x: -128, y: 0, z: 127 };
    let wide = Vec3::<i32>::from(narrow);
    assert_eq!(wide, Vec3 { x: -128i32, y: 0, z: 127 });
    let u: Vec3<i32> = Vec3 { x: 1, y: 2, z: 3 };
    let v: Vec3<i8> = Vec3 { x: 2, y: 3, z: 4 };
    let w: Vec3<i32> = u + Into::<Vec3<i32>>::into(v);
    assert_eq!(w, Vec3 { x: 3, y: 5, z: 7 });
}

#[test]
fn equality_needs_all_three_fields() {
    let u = Vec3 { x: 1, y: 2, z: 3 };
    assert!(u == Vec3 { x: 1, y: 2, z: 3 });
    assert!(u != Vec3 { x: 0, y: 2, z: 3 });
    assert!(u != Vec3 { x: 1, y: 0, z: 3 });
    assert!(u != Vec3 { x: 1, y: 2, z: 0 });
}

#[test]
fn worked_scenario() {
    let u = Vec3 { x: 1, y: 2, z: 3 };
    let v = Vec3 { x: 2, y: 3, z: 4 };
    assert_eq!(u + v, Vec3 { x: 3, y: 5, z: 7 });
    assert_eq!(v - u, Vec3 { x: 1, y: 1, z: 1 });
    assert_eq!(u + 1, Vec3 { x: 2, y: 3, z: 4 });
    assert_eq!(-v, Vec3 { x: -2, y: -3, z: -4 });
    assert_eq!(u[1], 2);
    let mut t = u;
    *t.index_mut(2) = 42;
    assert_eq!(t, Vec3 { x: 1, y: 2, z: 42 });
}

#[test]
fn wide_element_extremes() {
    let u: Vec3<i64> = Vec3 { x: i64::MAX - 1, y: i64::MIN + 1, z: 0 };
    assert_eq!(u + 1, Vec3 { x: i64::MAX, y: i64::MIN + 2, z: 1 });
    assert_eq!(u - 1, Vec3 { x: i64::MAX - 2, y: i64::MIN, z: -1 });
}
