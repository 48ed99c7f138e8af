use meth::family::{
    conversion_targets, dim, element_name, field_label, has_abs, has_float_ops, has_hash,
    has_negation, metatable_name, slot_count, type_label, Shape, TypeKey,
};
use meth::scalar::ElementKind;

const KINDS: [ElementKind; 3] = [ElementKind::Unsigned, ElementKind::Signed, ElementKind::Float];
const SHAPES: [Shape; 6] = [Shape::Vec2, Shape::Vec3, Shape::Vec4, Shape::Mat2, Shape::Mat3, Shape::Mat4];

#[test]
fn type_labels() {
    let k = |kind, shape| TypeKey { kind, shape };
    assert_eq!(type_label(k(ElementKind::Unsigned, Shape::Vec2)), "UVec2");
    assert_eq!(type_label(k(ElementKind::Signed, Shape::Vec3)), "IVec3");
    assert_eq!(type_label(k(ElementKind::Float, Shape::Vec4)), "Vec4");
    assert_eq!(type_label(k(ElementKind::Float, Shape::Mat3)), "Mat3");
}

#[test]
fn type_labels_never_collide() {
    let mut seen = Vec::new();
    for kind in KINDS {
        for shape in SHAPES {
            let label = type_label(TypeKey { kind, shape });
            assert!(!seen.contains(&label), "{label} repeated");
            seen.push(label);
        }
    }
    assert_eq!(seen.len(), 18);
}

#[test]
fn metatable_names() {
    let k = |kind, shape| TypeKey { kind, shape };
    assert_eq!(metatable_name(k(ElementKind::Unsigned, Shape::Vec2)), "uvec2_metatable");
    assert_eq!(metatable_name(k(ElementKind::Signed, Shape::Vec3)), "ivec3_metatable");
    assert_eq!(metatable_name(k(ElementKind::Float, Shape::Vec4)), "vec4_metatable");
    assert_eq!(metatable_name(k(ElementKind::Float, Shape::Mat2)), "mat2_metatable");
}

#[test]
fn field_labels() {
    assert_eq!(field_label(Shape::Vec4, 0), "x");
    assert_eq!(field_label(Shape::Vec4, 3), "w");
    assert_eq!(field_label(Shape::Mat2, 2), "y_axis.x");
    assert_eq!(field_label(Shape::Mat4, 15), "w_axis.w");
    assert_eq!(field_label(Shape::Mat3, 7), "z_axis.y");
}

#[test]
fn dimensions_and_slot_counts() {
    assert_eq!(dim(Shape::Vec3), 3);
    assert_eq!(dim(Shape::Mat4), 4);
    assert_eq!(slot_count(Shape::Vec2), 2);
    assert_eq!(slot_count(Shape::Mat3), 9);
    assert_eq!(slot_count(Shape::Mat4), 16);
}

#[test]
fn element_names() {
    assert_eq!(element_name(ElementKind::Unsigned), "u32");
    assert_eq!(element_name(ElementKind::Signed), "i32");
    assert_eq!(element_name(ElementKind::Float), "f32");
}

#[test]
fn capability_eligibility() {
    assert!(!has_negation(ElementKind::Unsigned));
    assert!(!has_abs(ElementKind::Unsigned));
    assert!(!has_float_ops(ElementKind::Unsigned));
    assert!(has_negation(ElementKind::Signed));
    assert!(has_abs(ElementKind::Signed));
    assert!(!has_float_ops(ElementKind::Signed));
    assert!(has_negation(ElementKind::Float));
    assert!(has_float_ops(ElementKind::Float));
    assert!(has_hash(ElementKind::Unsigned));
    assert!(!has_hash(ElementKind::Float));
}

#[test]
fn conversion_completeness() {
    for kind in KINDS {
        let targets = conversion_targets(kind);
        assert_eq!(targets.len(), 2);
        assert!(!targets.contains(&kind));
        assert_ne!(targets[0], targets[1]);
    }
    assert_eq!(
        conversion_targets(ElementKind::Unsigned),
        vec![ElementKind::Float, ElementKind::Signed]
    );
}
