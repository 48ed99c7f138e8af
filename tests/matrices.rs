use meth::mat2::Mat2;
use meth::mat3::Mat3;
use meth::mat4::Mat4;
use meth::vec2::Vec2;
use meth::vec3::Vec3;
use meth::vec4::Vec4;

#[test]
fn matrix_x_vecor() {
    let m1 = Mat3::from_axis(Vec3::new(1, 4, 7), Vec3::new(2, 5, 8), Vec3::new(3, 6, 9));
    let vec = Vec3::new(1, 2, 3);
    assert_eq!(m1 * vec, Vec3::new(14, 32, 50));
}

#[test]
fn mat3_matrix_x_matrix() {
    let m1 = Mat3::from_axis(Vec3::new(1, 4, 7), Vec3::new(2, 5, 8), Vec3::new(3, 6, 9));
    let m2 = Mat3::from_axis(Vec3::new(9, 6, 3), Vec3::new(8, 5, 2), Vec3::new(7, 4, 1));
    assert_eq!(
        m1 * m2,
        Mat3::from_axis(
            Vec3::new(30, 84, 138),
            Vec3::new(24, 69, 114),
            Vec3::new(18, 54, 90),
        )
    )
}

#[test]
fn matrix_x_vector() {
    let m1 = Mat4::from_axis(
        Vec4::new(1, 2, 3, 4),
        Vec4::new(5, 6, 7, 8),
        Vec4::new(1, 2, 3, 4),
        Vec4::new(5, 6, 7, 8),
    );
    let v1 = Vec4::new(1, 2, 3, 4);
    assert_eq!(m1 * v1, Vec4::new(34, 44, 54, 64));
}

#[test]
fn mat4_matrix_x_matrix() {
    let m1 = Mat4::from_axis(
        Vec4::new(1, 2, 3, 4),
        Vec4::new(5, 6, 7, 8),
        Vec4::new(1, 2, 3, 4),
        Vec4::new(5, 6, 7, 8),
    );
    let m2 = Mat4::from_axis(
        Vec4::new(8, 7, 6, 5),
        Vec4::new(4, 3, 2, 1),
        Vec4::new(8, 7, 6, 5),
        Vec4::new(4, 3, 2, 1),
    );
    assert_eq!(
        m1 * m2,
        Mat4::from_axis(
            Vec4::new(74, 100, 126, 152),
            Vec4::new(26, 36, 46, 56),
            Vec4::new(74, 100, 126, 152),
            Vec4::new(26, 36, 46, 56),
        )
    )
}

#[test]
fn unsigned_matrix_times_vector() {
    let m = Mat3::from_axis(Vec3::new(1u32, 4, 7), Vec3::new(2, 5, 8), Vec3::new(3, 6, 9));
    assert_eq!(m * Vec3::new(1u32, 2, 3), Vec3::new(14, 32, 50));
}

#[test]
fn identity_leaves_vectors_unchanged() {
    let v = Vec3::new(-7, 0, 12);
    assert_eq!(Mat3::<i32>::identity() * v, v);
    let w = Vec2::new(5u32, 9);
    assert_eq!(Mat2::<u32>::identity() * w, w);
    let u = Vec4::new(1, -2, 3, -4);
    assert_eq!(Mat4::<i32>::identity() * u, u);
}

#[test]
fn identity_times_identity() {
    assert_eq!(Mat2::<i32>::identity() * Mat2::identity(), Mat2::identity());
    assert_eq!(Mat3::<i32>::identity() * Mat3::identity(), Mat3::identity());
    assert_eq!(Mat4::<u32>::identity() * Mat4::identity(), Mat4::identity());
}

#[test]
fn identity_and_zero_entries() {
    assert_eq!(Mat2::<i32>::identity(), Mat2::new(1, 0, 0, 1));
    assert_eq!(Mat2::<i32>::zero(), Mat2::splat(0));
    assert_eq!(
        Mat3::<u32>::identity(),
        Mat3::from_axis(Vec3::new(1, 0, 0), Vec3::new(0, 1, 0), Vec3::new(0, 0, 1))
    );
}

#[test]
fn mat2_product_formula() {
    let a = Mat2::new(1, 2, 3, 4);
    let b = Mat2::new(5, 6, 7, 8);
    // column j of the result is a applied to column j of b
    assert_eq!(a * b, Mat2::new(23, 34, 31, 46));
    let mut c = a;
    c.mul_assign(b);
    assert_eq!(c, Mat2::new(23, 34, 31, 46));
}

#[test]
fn mat2_times_vector() {
    let m = Mat2::new(1, 2, 3, 4);
    assert_eq!(m * Vec2::new(10, 100), Vec2::new(310, 420));
}

#[test]
fn matrix_entrywise_operations() {
    let a = Mat2::new(1, 2, 3, 4);
    let b = Mat2::new(10, 20, 30, 40);
    assert_eq!(a + b, Mat2::new(11, 22, 33, 44));
    assert_eq!(b - a, Mat2::new(9, 18, 27, 36));
    assert_eq!(a + 1, Mat2::new(2, 3, 4, 5));
    assert_eq!(b - 10, Mat2::new(0, 10, 20, 30));
    assert_eq!(a * 3, Mat2::new(3, 6, 9, 12));
    assert_eq!(b / 10, Mat2::new(1, 2, 3, 4));
    let mut c = a;
    c.add_assign(b);
    assert_eq!(c, Mat2::new(11, 22, 33, 44));
    c.sub_assign(b);
    assert_eq!(c, a);
    c.add_assign_scalar(1);
    c.sub_assign_scalar(2);
    c.mul_assign_scalar(4);
    c.div_assign_scalar(2);
    assert_eq!(c, Mat2::new(0, 2, 4, 6));
}

#[test]
fn translation_and_scale() {
    let t = Mat3::from_translation(Vec2::new(5, -3));
    assert_eq!(
        t,
        Mat3::from_axis(Vec3::new(1, 0, 0), Vec3::new(0, 1, 0), Vec3::new(5, -3, 1))
    );
    // applied to (x, y, 1) the translation adds the offset
    assert_eq!(t * Vec3::new(2, 10, 1), Vec3::new(7, 7, 1));
    let unit = Mat3::from_translation(Vec2::new(1, 0));
    assert_eq!(unit * Vec3::new(0, 0, 1), Vec3::new(1, 0, 1));
    let s = Mat3::from_scale(Vec2::new(2u32, 7));
    assert_eq!(
        s,
        Mat3::from_axis(Vec3::new(2, 0, 0), Vec3::new(0, 7, 0), Vec3::new(0, 0, 1))
    );
    assert_eq!(s * Vec3::new(3, 4, 1), Vec3::new(6, 28, 1));
}

#[test]
fn matrix_splat() {
    let m = Mat4::splat(3u32);
    assert_eq!(m.x_axis, Vec4::splat(3));
    assert_eq!(m.w_axis, Vec4::new(3, 3, 3, 3));
}
