use meth::vec2::{IVec2, UVec2, Vec2};
use meth::vec3::{IVec3, Vec3};
use meth::vec4::{UVec4, Vec4};

#[test]
fn constructors_and_unpack() {
    let v = Vec3::new(1u32, 2, 3);
    assert_eq!((v.x, v.y, v.z), (1, 2, 3));
    assert_eq!(v.unpack(), (1, 2, 3));
    assert_eq!(Vec4::splat(-2i32), Vec4::new(-2, -2, -2, -2));
}

#[test]
fn elementwise_arithmetic() {
    let a = Vec3::new(8i32, -6, 9);
    let b = Vec3::new(2i32, 3, -4);
    assert_eq!(a + b, Vec3::new(10, -3, 5));
    assert_eq!(a - b, Vec3::new(6, -9, 13));
    assert_eq!(a * b, Vec3::new(16, -18, -36));
    assert_eq!(a / b, Vec3::new(4, -2, -2));
    assert_eq!(a + 1, Vec3::new(9, -5, 10));
    assert_eq!(a - 1, Vec3::new(7, -7, 8));
    assert_eq!(a * -2, Vec3::new(-16, 12, -18));
    assert_eq!(a / 4, Vec3::new(2, -1, 2));
}

#[test]
fn division_rounds_toward_zero() {
    assert_eq!(Vec2::new(-7i32, 7) / 2, Vec2::new(-3, 3));
    assert_eq!(Vec2::new(-7i32, 7) / Vec2::new(-2, -2), Vec2::new(3, -3));
    assert_eq!(Vec2::new(7u32, 9) / 2, Vec2::new(3, 4));
}

#[test]
fn in_place_arithmetic() {
    let mut v = UVec4::new(1, 2, 3, 4);
    v.add_assign(UVec4::splat(10));
    assert_eq!(v, UVec4::new(11, 12, 13, 14));
    v.sub_assign(UVec4::new(1, 2, 3, 4));
    assert_eq!(v, UVec4::splat(10));
    v.mul_assign(UVec4::new(1, 2, 3, 4));
    assert_eq!(v, UVec4::new(10, 20, 30, 40));
    v.div_assign(UVec4::new(10, 10, 10, 10));
    assert_eq!(v, UVec4::new(1, 2, 3, 4));
    v.add_assign_scalar(5);
    v.sub_assign_scalar(1);
    v.mul_assign_scalar(3);
    v.div_assign_scalar(2);
    assert_eq!(v, UVec4::new(7, 9, 10, 12));
}

#[test]
fn negation_and_abs_of_signed_vectors() {
    let v = IVec3::new(-1, 0, 5);
    assert_eq!(-v, IVec3::new(1, 0, -5));
    assert_eq!(v.abs(), IVec3::new(1, 0, 5));
}

#[test]
fn cross_kind_conversions() {
    let u = UVec2::new(3, 4_000_000_000);
    assert_eq!(u.as_ivec2(), IVec2::new(3, -294_967_296));
    let i = IVec2::new(-1, 7);
    assert_eq!(i.as_uvec2(), UVec2::new(u32::MAX, 7));
    assert_eq!(Vec3::new(1i32, -2, 3).as_uvec3().as_ivec3(), Vec3::new(1, -2, 3));
    assert_eq!(Vec4::new(1u32, 2, 3, 4).as_ivec4(), Vec4::new(1i32, 2, 3, 4));
}
