use vec3::Vec3;

#[test]
fn test_add() {
    let u = Vec3 { x: 1, y: 2, z: 3 };
    let v = Vec3 { x: 2, y: 3, z: 4 };

    assert_eq!(u + &v, Vec3 { x: 3, y: 5, z: 7 });
    assert_eq!(u + v, Vec3 { x: 3, y: 5, z: 7 });
    assert_eq!(Vec3 { x: 1, y: 2, z: 3 } + 1, Vec3 { x: 2, y: 3, z: 4 });
}

#[test]
fn test_add_assign() {
    let mut u = Vec3 { x: 1, y: 2, z: 3 };

    u.add_assign(Vec3 { x: 2, y: 3, z: 4 });
    assert_eq!(u, Vec3 { x: 3, y: 5, z: 7 });

    u.add_assign_scalar(2);
    assert_eq!(u, Vec3 { x: 5, y: 7, z: 9 });
}

#[test]
fn test_sub() {
    assert_eq!(Vec3 { x: 2, y: 3, z: 4 } - Vec3 { x: 1, y: 2, z: 3 }, Vec3 { x: 1, y: 1, z: 1 });
}

#[test]
fn test_sub_assign() {
    let mut u = Vec3 { x: 2, y: 3, z: 4 };
    u.sub_assign(Vec3 { x: 1, y: 2, z: 3 });
    assert_eq!(u, Vec3 { x: 1, y: 1, z: 1 });
}

#[test]
fn test_neg() {
    assert_eq!(-Vec3 { x: 2, y: 3, z: 4 }, Vec3 { x: -2, y: -3, z: -4 });
}

#[test]
fn test_index() {
    assert_eq!(Vec3 { x: 1, y: 2, z: 3 }[1], 2);
}

#[should_panic]
#[test]
fn test_index_out_of_bound() {
    let _ = Vec3 { x: 1, y: 2, z: 3 }[3];
}

#[test]
fn test_index_mut() {
    let mut u = Vec3 { x: 1, y: 2, z: 3 };
    *u.index_mut(2) = 42;
    assert_eq!(u[2], 42);
}

#[test]
#[should_panic]
fn test_index_mut_out_of_bound() {
    let mut u = Vec3 { x: 1, y: 2, z: 3 };
    *u.index_mut(4) = 42;
}
