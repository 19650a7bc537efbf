use pantheon::{Vec2, Vec3, Vec4};

type Vec2f = Vec2<f32>;

#[test]
fn vec_vec2_init() {
    let vec = Vec2f::default();
    assert_eq!(vec.x, 0.0);
    assert_eq!(vec.y, 0.0);

    let vec = Vec2f::new(-1.0, -1.0);
    assert_eq!(vec.x, -1.0);
    assert_eq!(vec.y, -1.0);
}

#[test]
fn vec2_neg() {
    let vec = -Vec2f::new(-1.0, 1.0);
    assert_eq!(vec.x, 1.0);
    assert_eq!(vec.y, -1.0);
}

#[test]
fn vec_vec2_addsub() {
    let vec1 = Vec2f::new(3.0, -3.0);
    let vec2 = Vec2f::new(1.0, 1.0);
    let vec = vec1 + vec2;
    assert_eq!(vec.x, 4.0);
    assert_eq!(vec.y, -2.0);

    let vec1 = Vec2f::new(3.0, -3.0);
    let vec2 = Vec2f::new(1.0, 1.0);
    let vec = vec1 - vec2;
    assert_eq!(vec.x, 2.0);
    assert_eq!(vec.y, -4.0);
}

#[test]
fn vec_vec2_scalar() {
    let vec = Vec2f::new(3.0, -3.0);
    let vec = vec * 2.0;
    assert_eq!(vec.x, 6.0);
    assert_eq!(vec.y, -6.0);
    let vec = vec / 2.0;
    assert_eq!(vec.x, 3.0);
    assert_eq!(vec.y, -3.0);
}

#[test]
fn vec_vec2_eq() {
    let vec1 = Vec2f::new(3.0, -3.0);
    let vec2 = Vec2f::new(3.0, -3.0);
    let vec3 = Vec2f::new(2.0, 2.0);
    assert_eq!(vec1, vec2);
    assert_ne!(vec2, vec3);
}

#[test]
fn vec2_dot() {
    let vec1 = Vec2f::new(5.0, 2.0);
    let vec2 = Vec2f::new(3.0, 2.0);
    assert_eq!(vec1.dot(vec2), (5.0 * 3.0) + (2.0 * 2.0))
}

#[test]
fn lib_vec2_init() {
    let vec = Vec2f::default();
    assert_eq!(vec.x, 0.0);
    assert_eq!(vec.y, 0.0);

    let vec = Vec2f::new(-1.0, -1.0);
    assert_eq!(vec.x, -1.0);
    assert_eq!(vec.y, -1.0);
}

#[test]
fn lib_vec2_addsub() {
    let vec1 = Vec2f::new(3.0, -3.0);
    let vec2 = Vec2f::new(1.0, 1.0);
    let vec = vec1 + vec2;
    assert_eq!(vec.x, 4.0);
    assert_eq!(vec.y, -2.0);

    let vec1 = Vec2f::new(3.0, -3.0);
    let vec2 = Vec2f::new(1.0, 1.0);
    let vec = vec1 - vec2;
    assert_eq!(vec.x, 2.0);
    assert_eq!(vec.y, -4.0);
}

#[test]
fn lib_vec2_scalar() {
    let vec = Vec2f::new(3.0, -3.0);
    let vec = vec * 2.0;
    assert_eq!(vec.x, 6.0);
    assert_eq!(vec.y, -6.0);
    let vec = vec / 2.0;
    assert_eq!(vec.x, 3.0);
    assert_eq!(vec.y, -3.0);
}

#[test]
fn lib_vec2_eq() {
    let vec1 = Vec2f::new(3.0, -3.0);
    let vec2 = Vec2f::new(3.0, -3.0);
    let vec3 = Vec2f::new(2.0, 2.0);
    assert_eq!(vec1, vec2);
    assert_ne!(vec2, vec3);
}

#[test]
fn vec2_integer_arithmetic_is_componentwise() {
    let a: Vec2<i32> = Vec2::new(7, -9);
    let b: Vec2<i32> = Vec2::new(2, 4);
    assert_eq!(a + b, Vec2::new(9, -5));
    assert_eq!(a - b, Vec2::new(5, -13));
    assert_eq!(a * 3, Vec2::new(21, -27));
    assert_eq!(a / 2, Vec2::new(3, -4));
    assert_eq!(-a, Vec2::new(-7, 9));
    assert_eq!(a.dot(b), -22);
}

#[test]
fn vec2_default_is_the_components_default() {
    let zero: Vec2<u32> = Vec2::default();
    assert_eq!(zero, Vec2::new(0, 0));
}

#[test]
fn vec2_new_keeps_the_order_of_its_arguments() {
    let v: Vec2<u8> = Vec2::new(1, 2);
    assert_eq!(v.x, 1);
    assert_eq!(v.y, 2);
}

#[test]
fn vec3_arithmetic_is_componentwise() {
    let a: Vec3<i32> = Vec3::new(1, -2, 3);
    let b: Vec3<i32> = Vec3::new(4, 5, 6);
    assert_eq!(a.x, 1);
    assert_eq!(a.y, -2);
    assert_eq!(a.z, 3);
    assert_eq!(a + b, Vec3::new(5, 3, 9));
    assert_eq!(a - b, Vec3::new(-3, -7, -3));
    assert_eq!(-a, Vec3::new(-1, 2, -3));
    assert_eq!(a.dot(b), 12);
    assert_eq!(Vec3::<i32>::default(), Vec3::new(0, 0, 0));
}

#[test]
fn vec3_of_floats() {
    let a: Vec3<f32> = Vec3::new(1.0, 2.0, 3.0);
    let b: Vec3<f32> = Vec3::new(0.5, 0.5, 0.5);
    assert_eq!(a + b, Vec3::new(1.5, 2.5, 3.5));
    assert_eq!(a.dot(b), 3.0);
}

#[test]
fn vec4_arithmetic_is_componentwise() {
    let a: Vec4<i32> = Vec4::new(1, 2, 3, 4);
    let b: Vec4<i32> = Vec4::new(10, 20, 30, 40);
    assert_eq!(a.w, 4);
    assert_eq!(a + b, Vec4::new(11, 22, 33, 44));
    assert_eq!(b - a, Vec4::new(9, 18, 27, 36));
    assert_eq!(-a, Vec4::new(-1, -2, -3, -4));
    assert_eq!(a.dot(b), 300);
    assert_eq!(Vec4::<u8>::default(), Vec4::new(0, 0, 0, 0));
}
