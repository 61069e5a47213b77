use math_lib::Vector3;

#[test]
fn vector3_build() {
    let a = Vector3::new(1.0, 2.0, 3.0);
    assert_eq!(a, Vector3 { x: 1.0, y: 2.0, z: 3.0 });
}

#[test]
fn vector3_negation() {
    let a: Vector3<f32> = Vector3::new(1.0, 2.0, 3.0);
    let b: Vector3<f32> = Vector3::new(-1.0, -2.0, -3.0);

    assert_eq!(-a, b);
}

#[test]
fn vector3_dot() {
    let a: Vector3<f32> = Vector3::new(1.0, 2.0, 3.0);
    let b: Vector3<f32> = Vector3::new(-1.0, -2.0, -3.0);

    assert_eq!(a.dot(&b), -1.0 + -4.0 + -9.0);
    println!("{}, {}, {}", a.x, a.y, a.z);
}

#[test]
fn vector3_normalise() {}

#[test]
fn vector3_add() {
    let a: Vector3<f32> = Vector3::new(1.0, 2.0, 3.0);
    let b: Vector3<f32> = Vector3::new(-1.0, -2.0, -3.0);

    assert_eq!(a + b, Vector3::new(0.0, 0.0, 0.0));
}

#[test]
fn vector3_sub() {
    let a: Vector3<f32> = Vector3::new(1.0, 2.0, 3.0);
    let b: Vector3<f32> = Vector3::new(-1.0, -2.0, -3.0);

    assert_eq!(a - b, Vector3::new(2.0, 4.0, 6.0));
}

#[test]
fn vector3_add_of_integers() {
    let a: Vector3<i32> = Vector3::new(1, 2, 3);
    let b: Vector3<i32> = Vector3::new(-1, -2, -3);

    assert_eq!(a + b, Vector3::new(0, 0, 0));
}

#[test]
fn vector3_dot_of_integers() {
    let a: Vector3<i32> = Vector3::new(1, 2, 3);
    let b: Vector3<i32> = Vector3::new(-1, -2, -3);

    assert_eq!(a.dot(&b), -14);
}

#[test]
fn vector3_add_commutes() {
    let a: Vector3<i64> = Vector3::new(7, -3, 100);
    let b: Vector3<i64> = Vector3::new(-20, 11, 1);

    assert_eq!(a + b, b + a);
    assert_eq!(a + b, Vector3::new(-13, 8, 101));
}

#[test]
fn vector3_minus_itself_is_zero() {
    let a: Vector3<u16> = Vector3::new(200, 3, 65535);

    assert_eq!(a - a, Vector3::new(0, 0, 0));
}

#[test]
fn vector3_double_negation() {
    let a: Vector3<i8> = Vector3::new(5, -9, 127);

    assert_eq!(-(-a), a);
    assert_eq!(-a, Vector3::new(-5, 9, -127));
}

#[test]
fn vector3_dot_is_symmetric() {
    let a: Vector3<i64> = Vector3::new(3, -4, 2);
    let b: Vector3<i64> = Vector3::new(5, 6, -7);

    assert_eq!(a.dot(&b), -23);
    assert_eq!(b.dot(&a), -23);
}

#[test]
fn vector3_equality_is_an_equivalence() {
    let a: Vector3<u32> = Vector3::new(1, 2, 3);
    let b: Vector3<u32> = Vector3::new(1, 2, 3);
    let c: Vector3<u32> = Vector3 { x: 1, y: 2, z: 3 };

    assert!(a == a);
    assert!(a == b && b == a);
    assert!(a == b && b == c && a == c);
}

#[test]
fn vector3_equality_reads_the_third_component() {
    let a: Vector3<f32> = Vector3::new(1.0, 2.0, 3.0);
    let b: Vector3<f32> = Vector3::new(1.0, 2.0, 4.0);

    assert_ne!(a, b);
    assert_ne!(Vector3::new(1, 2, 3), Vector3::new(1, 2, 0));
    assert_ne!(Vector3::new(1, 2, 3), Vector3::new(1, 0, 3));
    assert_ne!(Vector3::new(1, 2, 3), Vector3::new(0, 2, 3));
}

#[test]
fn vector3_clone_keeps_the_components() {
    let a: Vector3<i32> = Vector3::new(8, 9, 10);
    let b = a.clone();

    assert_eq!(a, b);
    assert_eq!(b.z, 10);
}
