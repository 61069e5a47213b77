use math_lib::vector4::Vector4;

type Vector4f64 = Vector4<f64>;

#[test]
fn vector4_build() {
    let a = Vector4::new(1.0, 2.0, 3.0, 0.0);
    assert_eq!(a, Vector4 { x: 1.0, y: 2.0, z: 3.0, w: 0.0 });
}

#[test]
fn vector4_negation() {
    let a: Vector4f64 = Vector4::new(1.0, 2.0, 3.0, 4.0);
    let b: Vector4f64 = Vector4::new(-1.0, -2.0, -3.0, -4.0);

    assert_eq!(-a, b);
}

#[test]
fn vector4_dot() {
    let a: Vector4f64 = Vector4::new(1.0, 2.0, 3.0, 4.0);
    let b: Vector4f64 = Vector4::new(-1.0, -2.0, -3.0, -4.0);

    assert_eq!(a.dot(&b), -1.0 + -4.0 + -9.0 + -16.0);
    println!("{}, {}, {}, {}", a.x, a.y, a.z, a.w);
}

#[test]
fn vector4_normalise() {}

#[test]
fn vector4_add() {
    let a: Vector4f64 = Vector4::new(1.0, 2.0, 3.0, 4.0);
    let b: Vector4f64 = Vector4::new(-1.0, -2.0, -3.0, -4.0);

    assert_eq!(a + b, Vector4::new(0.0, 0.0, 0.0, 0.0));
}

#[test]
fn vector4_sub() {
    let a: Vector4f64 = Vector4::new(1.0, 2.0, 3.0, 4.0);
    let b: Vector4f64 = Vector4::new(-1.0, -2.0, -3.0, -4.0);

    assert_eq!(a - b, Vector4::new(2.0, 4.0, 6.0, 8.0));
}

#[test]
fn vector4_negation_of_integers() {
    let a: Vector4<i32> = Vector4::new(1, 2, 3, 4);

    assert_eq!(-a, Vector4::new(-1, -2, -3, -4));
}

#[test]
fn vector4_add_commutes() {
    let a: Vector4<i64> = Vector4::new(7, -3, 100, 0);
    let b: Vector4<i64> = Vector4::new(-20, 11, 1, 5);

    assert_eq!(a + b, b + a);
    assert_eq!(a + b, Vector4::new(-13, 8, 101, 5));
}

#[test]
fn vector4_minus_itself_is_zero() {
    let a: Vector4<u32> = Vector4::new(200, 3, 65535, 1);

    assert_eq!(a - a, Vector4::new(0, 0, 0, 0));
}

#[test]
fn vector4_double_negation() {
    let a: Vector4<i64> = Vector4::new(5, -9, 127, 0);

    assert_eq!(-(-a), a);
}

#[test]
fn vector4_dot_is_symmetric() {
    let a: Vector4<i32> = Vector4::new(3, -4, 2, 1);
    let b: Vector4<i32> = Vector4::new(5, 6, -7, 10);

    assert_eq!(a.dot(&b), -13);
    assert_eq!(b.dot(&a), -13);
}

#[test]
fn vector4_equality_is_an_equivalence() {
    let a: Vector4<u8> = Vector4::new(1, 2, 3, 4);
    let b: Vector4<u8> = Vector4::new(1, 2, 3, 4);
    let c: Vector4<u8> = Vector4 { x: 1, y: 2, z: 3, w: 4 };

    assert!(a == a);
    assert!(a == b && b == a);
    assert!(a == b && b == c && a == c);
}

#[test]
fn vector4_equality_reads_every_component() {
    let a: Vector4<i32> = Vector4::new(1, 2, 3, 4);

    assert_ne!(a, Vector4::new(0, 2, 3, 4));
    assert_ne!(a, Vector4::new(1, 0, 3, 4));
    assert_ne!(a, Vector4::new(1, 2, 0, 4));
    assert_ne!(a, Vector4::new(1, 2, 3, 0));
}

#[test]
fn vector4_clone_keeps_the_components() {
    let a: Vector4<i32> = Vector4::new(8, 9, 10, 11);
    let b = a.clone();

    assert_eq!(a, b);
    assert_eq!(b.w, 11);
}
