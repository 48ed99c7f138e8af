use meth::family::{Shape, TypeKey};
use meth::marshal::{read_slots, MarshalError, ScriptType, SlotRead};
use meth::mat2::Mat2;
use meth::mat3::Mat3;
use meth::registry::MetatableRegistry;
use meth::scalar::ElementKind;
use meth::vec2::{UVec2, Vec2};
use meth::vec3::Vec3;
use meth::vec4::Vec4;

fn key(kind: ElementKind, shape: Shape) -> TypeKey {
    TypeKey { kind, shape }
}

fn reads_of<T: Copy>(slots: &[T]) -> Vec<SlotRead<T>> {
    slots.iter().map(|v| SlotRead::Value(*v)).collect()
}

#[test]
fn export_unsigned_vec2_with_its_metatable() {
    let mut registry = MetatableRegistry::new();
    registry.register(key(ElementKind::Signed, Shape::Vec2), "ivec2 table");
    registry.register(key(ElementKind::Unsigned, Shape::Vec2), "uvec2 table");
    let v = UVec2::new(3, 5);
    let metatable = registry.lookup(key(ElementKind::Unsigned, Shape::Vec2)).unwrap();
    assert_eq!(*metatable, "uvec2 table");
    let slots = v.export();
    assert_eq!(slots, vec![3, 5]);
}

#[test]
fn import_of_short_table_reports_missing_field() {
    let reads = vec![SlotRead::Value(3u32)];
    let r = UVec2::import(&reads, ElementKind::Unsigned);
    let e = r.unwrap_err();
    assert_eq!(
        e,
        MarshalError::FieldMissing { target: key(ElementKind::Unsigned, Shape::Vec2), slot: 1 }
    );
    assert_eq!(
        e.message(),
        "could not get `UVec2`'s field `y` of type `u32`: the slot is empty"
    );
}

#[test]
fn import_reports_first_bad_field() {
    let reads = vec![
        SlotRead::Value(1i32),
        SlotRead::Mismatch(ScriptType::String),
        SlotRead::Missing,
    ];
    let e = Vec3::import(&reads, ElementKind::Signed).unwrap_err();
    assert_eq!(
        e,
        MarshalError::FieldTypeMismatch {
            target: key(ElementKind::Signed, Shape::Vec3),
            slot: 1,
            observed: ScriptType::String,
        }
    );
    assert_eq!(
        e.message(),
        "could not get `IVec3`'s field `y` of type `i32`: found `string`"
    );
}

#[test]
fn round_trip_vectors_and_matrices() {
    let v = Vec4::new(1u32, 0, u32::MAX, 7);
    assert_eq!(Vec4::import(&reads_of(&v.export()), ElementKind::Unsigned), Ok(v));
    let w = Vec2::new(i32::MIN, -1);
    assert_eq!(Vec2::import(&reads_of(&w.export()), ElementKind::Signed), Ok(w));
    let m = Mat3::from_axis(Vec3::new(1, 2, 3), Vec3::new(4, 5, 6), Vec3::new(7, 8, 9));
    assert_eq!(Mat3::import(&reads_of(&m.export()), ElementKind::Signed), Ok(m));
    let f = Vec3::new(0.1f32, -2.5, f32::MAX);
    let back = Vec3::import(&reads_of(&f.export()), ElementKind::Float).unwrap();
    assert_eq!(back.x.to_bits(), f.x.to_bits());
    assert_eq!(back.y.to_bits(), f.y.to_bits());
    assert_eq!(back.z.to_bits(), f.z.to_bits());
}

#[test]
fn export_places_fields_in_order() {
    let v = Vec4::new(10, 20, 30, 40);
    assert_eq!(v.export(), vec![10, 20, 30, 40]);
    assert_eq!(v.export(), v.export());
    let m = Mat2::new(1, 2, 3, 4);
    assert_eq!(m.export(), vec![1, 2, 3, 4]);
    let m3 = Mat3::from_axis(Vec3::new(1, 4, 7), Vec3::new(2, 5, 8), Vec3::new(3, 6, 9));
    assert_eq!(m3.export(), vec![1, 4, 7, 2, 5, 8, 3, 6, 9]);
}

#[test]
fn matrix_field_errors_name_axis_and_component() {
    let reads = reads_of(&[1.0f32, 2.0, 3.0]);
    let e = Mat2::import(&reads, ElementKind::Float).unwrap_err();
    assert_eq!(
        e,
        MarshalError::FieldMissing { target: key(ElementKind::Float, Shape::Mat2), slot: 3 }
    );
    assert_eq!(
        e.message(),
        "could not get `Mat2`'s field `y_axis.y` of type `f32`: the slot is empty"
    );
}

#[test]
fn write_failure_message() {
    let e = MarshalError::FieldWrite { target: key(ElementKind::Float, Shape::Mat3), slot: 5 };
    assert_eq!(e.message(), "could not set `Mat3`'s field `y_axis.z` of type `f32`");
    let e = MarshalError::FieldWrite { target: key(ElementKind::Unsigned, Shape::Vec4), slot: 3 };
    assert_eq!(e.message(), "could not set `UVec4`'s field `w` of type `u32`");
}

#[test]
fn not_a_table_message() {
    let e = MarshalError::NotATable {
        target: key(ElementKind::Signed, Shape::Vec2),
        observed: ScriptType::Number,
    };
    assert_eq!(e.message(), "`IVec2` should be a table, got `number` instead");
}

#[test]
fn registry_lookup_failure() {
    let mut registry = MetatableRegistry::new();
    registry.register(key(ElementKind::Float, Shape::Vec3), 1u8);
    let missing = key(ElementKind::Float, Shape::Mat4);
    let e = registry.lookup(missing).unwrap_err();
    assert_eq!(e, MarshalError::RegistryLookup { target: missing });
    assert_eq!(e.message(), "could not get metatable mat4_metatable");
    assert_eq!(registry.lookup(key(ElementKind::Float, Shape::Vec3)), Ok(&1));
}

#[test]
fn registry_replaces_an_entry() {
    let mut registry = MetatableRegistry::new();
    let k = key(ElementKind::Unsigned, Shape::Vec3);
    registry.register(k, 1u8);
    registry.register(key(ElementKind::Signed, Shape::Vec3), 2u8);
    registry.register(k, 3u8);
    assert_eq!(registry.lookup(k), Ok(&3));
    assert_eq!(registry.lookup(key(ElementKind::Signed, Shape::Vec3)), Ok(&2));
}

#[test]
fn read_slots_on_empty_input() {
    let reads: Vec<SlotRead<u32>> = Vec::new();
    let k = key(ElementKind::Unsigned, Shape::Vec2);
    assert_eq!(read_slots(&reads, k, 0), Ok(Vec::new()));
    assert_eq!(read_slots(&reads, k, 2), Err(MarshalError::FieldMissing { target: k, slot: 0 }));
}

#[test]
fn script_type_names() {
    assert_eq!(ScriptType::Nil.name(), "nil");
    assert_eq!(ScriptType::LightUserData.name(), "lightuserdata");
    assert_eq!(ScriptType::UserData.name(), "userdata");
}

#[test]
fn out_of_range_value_is_reported_as_such() {
    let reads = vec![SlotRead::Value(1u32), SlotRead::OutOfRange(ScriptType::Integer)];
    let e = UVec2::import(&reads, ElementKind::Unsigned).unwrap_err();
    assert_eq!(
        e,
        MarshalError::FieldOutOfRange {
            target: key(ElementKind::Unsigned, Shape::Vec2),
            slot: 1,
            observed: ScriptType::Integer,
        }
    );
    assert_eq!(
        e.message(),
        "could not get `UVec2`'s field `y` of type `u32`: the `integer` value is out of range"
    );
}
