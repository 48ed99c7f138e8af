use crate::scalar::ElementKind;
use vstd::prelude::*;
use vstd::string::StringExecFns;

verus! {

/// The shape of a generated type: a vector or a square matrix, and its size.
#[derive(Clone, Copy, Debug, PartialEq, Eq, Structural)]
pub enum Shape {
    Vec2,
    Vec3,
    Vec4,
    Mat2,
    Mat3,
    Mat4,
}

/// One member of the type family: an element kind and a shape.
#[derive(Clone, Copy, Debug, PartialEq, Eq, Structural)]
pub struct TypeKey {
    pub kind: ElementKind,
    pub shape: Shape,
}

/// The dimension of a shape: component count of a vector, side of a matrix.
pub open spec fn dim_of(s: Shape) -> nat {
    match s {
        Shape::Vec2 | Shape::Mat2 => 2,
        Shape::Vec3 | Shape::Mat3 => 3,
        Shape::Vec4 | Shape::Mat4 => 4,
    }
}

/// Whether the shape is a matrix.
pub open spec fn is_matrix(s: Shape) -> bool {
    s == Shape::Mat2 || s == Shape::Mat3 || s == Shape::Mat4
}

/// The number of scalar slots a value of this shape occupies.
pub open spec fn slot_count_of(s: Shape) -> nat {
    if is_matrix(s) {
        dim_of(s) * dim_of(s)
    } else {
        dim_of(s)
    }
}

/// The prefix of a type name that marks its element kind.
pub open spec fn kind_prefix(k: ElementKind) -> Seq<char> {
    match k {
        ElementKind::Unsigned => "U"@,
        ElementKind::Signed => "I"@,
        ElementKind::Float => ""@,
    }
}

/// The element-kind prefix of a metatable name.
pub open spec fn kind_prefix_lower(k: ElementKind) -> Seq<char> {
    match k {
        ElementKind::Unsigned => "u"@,
        ElementKind::Signed => "i"@,
        ElementKind::Float => ""@,
    }
}

/// The word of a type name that marks vectors and matrices.
pub open spec fn shape_word(s: Shape) -> Seq<char> {
    if is_matrix(s) {
        "Mat"@
    } else {
        "Vec"@
    }
}

/// The vector-or-matrix word of a metatable name.
pub open spec fn shape_word_lower(s: Shape) -> Seq<char> {
    if is_matrix(s) {
        "mat"@
    } else {
        "vec"@
    }
}

/// The dimension, as the digit that ends a type name.
pub open spec fn dim_digit(s: Shape) -> Seq<char> {
    match s {
        Shape::Vec2 | Shape::Mat2 => "2"@,
        Shape::Vec3 | Shape::Mat3 => "3"@,
        Shape::Vec4 | Shape::Mat4 => "4"@,
    }
}

/// The name of a generated type: `UVec2`, `IVec3`, `Vec4`, `Mat3`, ...
pub open spec fn type_label_of(t: TypeKey) -> Seq<char> {
    kind_prefix(t.kind) + shape_word(t.shape) + dim_digit(t.shape)
}

/// The key of a type's metatable in the registry: `uvec2_metatable`, ...
pub open spec fn metatable_name_of(t: TypeKey) -> Seq<char> {
    kind_prefix_lower(t.kind) + shape_word_lower(t.shape) + dim_digit(t.shape) + "_metatable"@
}

/// The name of the scalar type stored in every component.
pub open spec fn element_name_of(k: ElementKind) -> Seq<char> {
    match k {
        ElementKind::Unsigned => "u32"@,
        ElementKind::Signed => "i32"@,
        ElementKind::Float => "f32"@,
    }
}

/// The name of a vector component, or of a matrix axis, by position.
pub open spec fn axis_letter(i: int) -> Seq<char> {
    if i == 0 {
        "x"@
    } else if i == 1 {
        "y"@
    } else if i == 2 {
        "z"@
    } else {
        "w"@
    }
}

/// The name of the field stored at 0-based `slot`: a component name for a
/// vector, `axis.component` for a matrix stored axis after axis.
pub open spec fn field_name_of(s: Shape, slot: int) -> Seq<char> {
    if is_matrix(s) {
        axis_letter(slot / dim_of(s) as int) + "_axis."@ + axis_letter(slot % dim_of(s) as int)
    } else {
        axis_letter(slot)
    }
}

/// Negation is generated for signed and float kinds only.
pub open spec fn negation_eligible(k: ElementKind) -> bool {
    k != ElementKind::Unsigned
}

/// Absolute value is generated for signed and float kinds only.
pub open spec fn abs_eligible(k: ElementKind) -> bool {
    k != ElementKind::Unsigned
}

/// Rounding, interpolation, normalization, dot product and the other float
/// helpers are generated for the float kind only.
pub open spec fn float_ops_eligible(k: ElementKind) -> bool {
    k == ElementKind::Float
}

/// Hashing is generated for the integer kinds only.
pub open spec fn hash_eligible(k: ElementKind) -> bool {
    k != ElementKind::Float
}

/// The kinds a vector of kind `k` converts to: the two other kinds, in the
/// order float, signed, unsigned.
pub open spec fn conversion_targets_of(k: ElementKind) -> Seq<ElementKind> {
    match k {
        ElementKind::Unsigned => seq![ElementKind::Float, ElementKind::Signed],
        ElementKind::Signed => seq![ElementKind::Float, ElementKind::Unsigned],
        ElementKind::Float => seq![ElementKind::Signed, ElementKind::Unsigned],
    }
}

/// The dimension of a shape.
pub fn dim(s: Shape) -> (r: usize)
    ensures
        r == dim_of(s),
{
    match s {
        Shape::Vec2 | Shape::Mat2 => 2,
        Shape::Vec3 | Shape::Mat3 => 3,
        Shape::Vec4 | Shape::Mat4 => 4,
    }
}

/// The number of table slots a value of shape `s` occupies.
pub fn slot_count(s: Shape) -> (r: usize)
    ensures
        r == slot_count_of(s),
{
    let n = dim(s);
    match s {
        Shape::Mat2 | Shape::Mat3 | Shape::Mat4 => n * n,
        _ => n,
    }
}

fn dim_digit_str(s: Shape) -> (r: &'static str)
    ensures
        r@ == dim_digit(s),
{
    match s {
        Shape::Vec2 | Shape::Mat2 => "2",
        Shape::Vec3 | Shape::Mat3 => "3",
        Shape::Vec4 | Shape::Mat4 => "4",
    }
}

fn axis_letter_str(i: usize) -> (r: &'static str)
    ensures
        r@ == axis_letter(i as int),
{
    if i == 0 {
        "x"
    } else if i == 1 {
        "y"
    } else if i == 2 {
        "z"
    } else {
        "w"
    }
}

/// The name of the type, as shown in error messages.
pub fn type_label(t: TypeKey) -> (r: String)
    ensures
        r@ == type_label_of(t),
{
    let prefix = match t.kind {
        ElementKind::Unsigned => "U",
        ElementKind::Signed => "I",
        ElementKind::Float => "",
    };
    let word = match t.shape {
        Shape::Mat2 | Shape::Mat3 | Shape::Mat4 => "Mat",
        _ => "Vec",
    };
    String::from_str(prefix).concat(word).concat(dim_digit_str(t.shape))
}

/// The registry key of the type's metatable.
pub fn metatable_name(t: TypeKey) -> (r: String)
    ensures
        r@ == metatable_name_of(t),
{
    let prefix = match t.kind {
        ElementKind::Unsigned => "u",
        ElementKind::Signed => "i",
        ElementKind::Float => "",
    };
    let word = match t.shape {
        Shape::Mat2 | Shape::Mat3 | Shape::Mat4 => "mat",
        _ => "vec",
    };
    String::from_str(prefix).concat(word).concat(dim_digit_str(t.shape)).concat("_metatable")
}

/// The name of the element type, as shown in error messages.
pub fn element_name(k: ElementKind) -> (r: &'static str)
    ensures
        r@ == element_name_of(k),
{
    match k {
        ElementKind::Unsigned => "u32",
        ElementKind::Signed => "i32",
        ElementKind::Float => "f32",
    }
}

/// The name of the field at 0-based `slot` of a value of shape `s`.
pub fn field_label(s: Shape, slot: usize) -> (r: String)
    ensures
        r@ == field_name_of(s, slot as int),
{
    match s {
        Shape::Mat2 | Shape::Mat3 | Shape::Mat4 => {
            let n = dim(s);
            String::from_str(axis_letter_str(slot / n)).concat("_axis.").concat(
                axis_letter_str(slot % n),
            )
        },
        _ => String::from_str(axis_letter_str(slot)),
    }
}

/// Whether vectors of kind `k` have negation.
pub fn has_negation(k: ElementKind) -> (r: bool)
    ensures
        r == negation_eligible(k),
{
    !matches!(k, ElementKind::Unsigned)
}

/// Whether vectors of kind `k` have an absolute value.
pub fn has_abs(k: ElementKind) -> (r: bool)
    ensures
        r == abs_eligible(k),
{
    !matches!(k, ElementKind::Unsigned)
}

/// Whether vectors of kind `k` have the float helpers (rounding,
/// interpolation, normalization, dot product, ...).
pub fn has_float_ops(k: ElementKind) -> (r: bool)
    ensures
        r == float_ops_eligible(k),
{
    matches!(k, ElementKind::Float)
}

/// Whether vectors of kind `k` can be hashed.
pub fn has_hash(k: ElementKind) -> (r: bool)
    ensures
        r == hash_eligible(k),
{
    !matches!(k, ElementKind::Float)
}

/// The element kinds that a vector of kind `k` has conversions to.
pub fn conversion_targets(k: ElementKind) -> (r: Vec<ElementKind>)
    ensures
        r@ == conversion_targets_of(k),
{
    match k {
        ElementKind::Unsigned => vec![ElementKind::Float, ElementKind::Signed],
        ElementKind::Signed => vec![ElementKind::Float, ElementKind::Unsigned],
        ElementKind::Float => vec![ElementKind::Signed, ElementKind::Unsigned],
    }
}

/// Every vector kind converts to exactly the two other kinds of the same
/// dimension, and never to itself.
pub proof fn lemma_conversions_complete(k: ElementKind)
    ensures
        conversion_targets_of(k).len() == 2,
        conversion_targets_of(k)[0] != conversion_targets_of(k)[1],
        !conversion_targets_of(k).contains(k),
        forall|j: ElementKind| j != k ==> conversion_targets_of(k).contains(j),
{
    let t = conversion_targets_of(k);
    assert(t[0] != k && t[1] != k);
    assert forall|j: ElementKind| j != k implies t.contains(j) by {
        if j == t[0] {
            assert(t.contains(t[0]));
        } else {
            assert(j == t[1]);
            assert(t.contains(t[1]));
        }
    }
}

/// Distinct members of the family have distinct type labels.
pub proof fn lemma_type_labels_distinct(a: TypeKey, b: TypeKey)
    requires
        a != b,
    ensures
        type_label_of(a) != type_label_of(b),
{
    reveal_strlit("U");
    reveal_strlit("I");
    reveal_strlit("");
    reveal_strlit("Vec");
    reveal_strlit("Mat");
    reveal_strlit("2");
    reveal_strlit("3");
    reveal_strlit("4");
    let (pa, pb) = (kind_prefix(a.kind), kind_prefix(b.kind));
    let (wa, wb) = (shape_word(a.shape), shape_word(b.shape));
    let (da, db) = (dim_digit(a.shape), dim_digit(b.shape));
    let la = type_label_of(a);
    let lb = type_label_of(b);
    assert(la == pa + wa + da);
    assert(lb == pb + wb + db);
    assert(la.len() == pa.len() + 4);
    assert(lb.len() == pb.len() + 4);
    if la == lb {
        assert(pa.len() == pb.len());
        assert(la[la.len() - 1] == da[0]);
        assert(lb[lb.len() - 1] == db[0]);
        assert(la[pa.len() as int] == wa[0]);
        assert(lb[pb.len() as int] == wb[0]);
        if pa.len() == 1 {
            assert(la[0] == pa[0]);
            assert(lb[0] == pb[0]);
        }
        assert(a.kind == b.kind);
        assert(a.shape == b.shape);
    }
}

/// Distinct members of the family have distinct metatable names.
pub proof fn lemma_metatable_names_distinct(a: TypeKey, b: TypeKey)
    requires
        a != b,
    ensures
        metatable_name_of(a) != metatable_name_of(b),
{
    reveal_strlit("u");
    reveal_strlit("i");
    reveal_strlit("");
    reveal_strlit("vec");
    reveal_strlit("mat");
    reveal_strlit("2");
    reveal_strlit("3");
    reveal_strlit("4");
    reveal_strlit("_metatable");
    let (pa, pb) = (kind_prefix_lower(a.kind), kind_prefix_lower(b.kind));
    let (wa, wb) = (shape_word_lower(a.shape), shape_word_lower(b.shape));
    let (da, db) = (dim_digit(a.shape), dim_digit(b.shape));
    let suffix = "_metatable"@;
    let la = metatable_name_of(a);
    let lb = metatable_name_of(b);
    assert(la == pa + wa + da + suffix);
    assert(lb == pb + wb + db + suffix);
    assert(la.len() == pa.len() + 14);
    assert(lb.len() == pb.len() + 14);
    if la == lb {
        assert(pa.len() == pb.len());
        assert(la[pa.len() + 3int] == da[0]);
        assert(lb[pb.len() + 3int] == db[0]);
        assert(la[pa.len() as int] == wa[0]);
        assert(lb[pb.len() as int] == wb[0]);
        if pa.len() == 1 {
            assert(la[0] == pa[0]);
            assert(lb[0] == pb[0]);
        }
        assert(a.kind == b.kind);
        assert(a.shape == b.shape);
    }
}

/// Negation and absolute value exist exactly for the signed and float kinds;
/// the float helpers exist for the float kind alone.
pub proof fn lemma_capability_eligibility(k: ElementKind)
    ensures
        negation_eligible(k) <==> k != ElementKind::Unsigned,
        abs_eligible(k) <==> k != ElementKind::Unsigned,
        float_ops_eligible(k) <==> k == ElementKind::Float,
        float_ops_eligible(k) ==> negation_eligible(k) && abs_eligible(k),
        hash_eligible(k) <==> !float_ops_eligible(k),
{
}

} // verus!
