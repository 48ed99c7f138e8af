use crate::family::{
    element_name, element_name_of, field_label, field_name_of, metatable_name,
    metatable_name_of, type_label, type_label_of, TypeKey,
};
use vstd::prelude::*;
use vstd::string::StringExecFns;

verus! {

/// The dynamic type of a scripting value, as the runtime names it.
#[derive(Clone, Copy, Debug, PartialEq, Eq, Structural)]
pub enum ScriptType {
    Nil,
    Boolean,
    LightUserData,
    Integer,
    Number,
    String,
    Table,
    Function,
    Thread,
    UserData,
    Error,
    Other,
}

pub open spec fn script_type_name_of(t: ScriptType) -> Seq<char> {
    match t {
        ScriptType::Nil => "nil"@,
        ScriptType::Boolean => "boolean"@,
        ScriptType::LightUserData => "lightuserdata"@,
        ScriptType::Integer => "integer"@,
        ScriptType::Number => "number"@,
        ScriptType::String => "string"@,
        ScriptType::Table => "table"@,
        ScriptType::Function => "function"@,
        ScriptType::Thread => "thread"@,
        ScriptType::UserData => "userdata"@,
        ScriptType::Error => "error"@,
        ScriptType::Other => "other"@,
    }
}

impl ScriptType {
    /// The runtime's name for this dynamic type.
    pub fn name(&self) -> (r: &'static str)
        ensures
            r@ == script_type_name_of(*self),
    {
        match self {
            ScriptType::Nil => "nil",
            ScriptType::Boolean => "boolean",
            ScriptType::LightUserData => "lightuserdata",
            ScriptType::Integer => "integer",
            ScriptType::Number => "number",
            ScriptType::String => "string",
            ScriptType::Table => "table",
            ScriptType::Function => "function",
            ScriptType::Thread => "thread",
            ScriptType::UserData => "userdata",
            ScriptType::Error => "error",
            ScriptType::Other => "other",
        }
    }
}

/// What reading one positional slot of a scripting table produced.
#[derive(Clone, Copy, Debug, PartialEq, Eq)]
pub enum SlotRead<T> {
    /// The slot held a value of the element type.
    Value(T),
    /// The slot was empty.
    Missing,
    /// The slot held a value of another dynamic type.
    Mismatch(ScriptType),
    /// The slot held a value of a fitting dynamic type that the element type
    /// cannot represent, such as a negative integer for an unsigned field.
    OutOfRange(ScriptType),
}

/// A marshalling failure, with the type and field it concerns.
#[derive(Clone, Copy, Debug, PartialEq, Eq, Structural)]
pub enum MarshalError {
    /// The scripting value to import was not a table.
    NotATable { target: TypeKey, observed: ScriptType },
    /// The slot of a field was empty.
    FieldMissing { target: TypeKey, slot: usize },
    /// The slot of a field held a value of another dynamic type.
    FieldTypeMismatch { target: TypeKey, slot: usize, observed: ScriptType },
    /// The slot of a field held a value outside the element type's range.
    FieldOutOfRange { target: TypeKey, slot: usize, observed: ScriptType },
    /// Writing a field into the new table failed.
    FieldWrite { target: TypeKey, slot: usize },
    /// The registry holds no metatable for the type.
    RegistryLookup { target: TypeKey },
}

/// "could not {verb} `{Type}`'s field `{field}` of type `{element}`"
pub open spec fn field_context_of(verb: Seq<char>, t: TypeKey, slot: int) -> Seq<char> {
    "could not "@ + verb + " `"@ + type_label_of(t) + "`'s field `"@ + field_name_of(t.shape, slot)
        + "` of type `"@ + element_name_of(t.kind) + "`"@
}

pub open spec fn message_of(e: MarshalError) -> Seq<char> {
    match e {
        MarshalError::NotATable { target, observed } => "`"@ + type_label_of(target)
            + "` should be a table, got `"@ + script_type_name_of(observed) + "` instead"@,
        MarshalError::FieldMissing { target, slot } => field_context_of("get"@, target, slot as int)
            + ": the slot is empty"@,
        MarshalError::FieldTypeMismatch { target, slot, observed } => field_context_of(
            "get"@,
            target,
            slot as int,
        ) + ": found `"@ + script_type_name_of(observed) + "`"@,
        MarshalError::FieldOutOfRange { target, slot, observed } => field_context_of(
            "get"@,
            target,
            slot as int,
        ) + ": the `"@ + script_type_name_of(observed) + "` value is out of range"@,
        MarshalError::FieldWrite { target, slot } => field_context_of("set"@, target, slot as int),
        MarshalError::RegistryLookup { target } => "could not get metatable "@ + metatable_name_of(
            target,
        ),
    }
}

/// The context of a failure on one field: `verb` is "get" or "set".
pub fn field_context(verb: &str, t: TypeKey, slot: usize) -> (r: String)
    ensures
        r@ == field_context_of(verb@, t, slot as int),
{
    let field = field_label(t.shape, slot);
    let label = type_label(t);
    String::from_str("could not ").concat(verb).concat(" `").concat(label.as_str()).concat(
        "`'s field `",
    ).concat(field.as_str()).concat("` of type `").concat(element_name(t.kind)).concat("`")
}

impl MarshalError {
    /// The human-readable description of the failure.
    pub fn message(&self) -> (r: String)
        ensures
            r@ == message_of(*self),
    {
        match *self {
            MarshalError::NotATable { target, observed } => {
                let label = type_label(target);
                String::from_str("`").concat(label.as_str()).concat(
                    "` should be a table, got `",
                ).concat(observed.name()).concat("` instead")
            },
            MarshalError::FieldMissing { target, slot } => {
                field_context("get", target, slot).concat(": the slot is empty")
            },
            MarshalError::FieldTypeMismatch { target, slot, observed } => {
                field_context("get", target, slot).concat(": found `").concat(
                    observed.name(),
                ).concat("`")
            },
            MarshalError::FieldOutOfRange { target, slot, observed } => {
                field_context("get", target, slot).concat(": the `").concat(observed.name()).concat(
                    "` value is out of range",
                )
            },
            MarshalError::FieldWrite { target, slot } => field_context("set", target, slot),
            MarshalError::RegistryLookup { target } => {
                let name = metatable_name(target);
                String::from_str("could not get metatable ").concat(name.as_str())
            },
        }
    }
}

/// The read of slot `i`; slots past the end of `reads` are empty.
pub open spec fn read_at<T>(reads: Seq<SlotRead<T>>, i: int) -> SlotRead<T> {
    if 0 <= i < reads.len() {
        reads[i]
    } else {
        SlotRead::Missing
    }
}

/// The values of the first `n` slots, or the error for the first slot, in
/// slot order, that does not hold a value.
pub open spec fn read_slots_spec<T>(reads: Seq<SlotRead<T>>, t: TypeKey, n: nat) -> Result<
    Seq<T>,
    MarshalError,
>
    decreases n,
{
    if n == 0 {
        Ok(Seq::empty())
    } else {
        match read_slots_spec(reads, t, (n - 1) as nat) {
            Err(e) => Err(e),
            Ok(vals) => match read_at(reads, n - 1) {
                SlotRead::Value(v) => Ok(vals.push(v)),
                SlotRead::Missing => Err(
                    MarshalError::FieldMissing { target: t, slot: (n - 1) as usize },
                ),
                SlotRead::Mismatch(o) => Err(
                    MarshalError::FieldTypeMismatch {
                        target: t,
                        slot: (n - 1) as usize,
                        observed: o,
                    },
                ),
                SlotRead::OutOfRange(o) => Err(
                    MarshalError::FieldOutOfRange {
                        target: t,
                        slot: (n - 1) as usize,
                        observed: o,
                    },
                ),
            },
        }
    }
}

/// The reads that a table written from `vals` gives back, slot by slot.
pub open spec fn reads_of<T>(vals: Seq<T>) -> Seq<SlotRead<T>> {
    vals.map_values(|v: T| SlotRead::Value(v))
}

proof fn lemma_error_persists<T>(reads: Seq<SlotRead<T>>, t: TypeKey, i: nat, n: nat)
    requires
        i <= n,
        read_slots_spec(reads, t, i) is Err,
    ensures
        read_slots_spec(reads, t, n) == read_slots_spec(reads, t, i),
    decreases n - i,
{
    if i < n {
        lemma_error_persists(reads, t, i, (n - 1) as nat);
    }
}

/// Reading back the slots of a table written from `vals` gives `vals`.
pub proof fn lemma_read_back<T>(vals: Seq<T>, t: TypeKey, n: nat)
    requires
        n <= vals.len(),
    ensures
        read_slots_spec(reads_of(vals), t, n) == Ok::<Seq<T>, MarshalError>(vals.take(n as int)),
    decreases n,
{
    if n > 0 {
        lemma_read_back(vals, t, (n - 1) as nat);
        assert(vals.take(n as int) =~= vals.take(n - 1).push(vals[n - 1]));
    } else {
        assert(vals.take(0) =~= Seq::<T>::empty());
    }
}

/// Reads the first `n` slots: their values, or the error for the first slot
/// that does not hold one.
pub fn read_slots<T: Copy>(reads: &Vec<SlotRead<T>>, t: TypeKey, n: usize) -> (r: Result<
    Vec<T>,
    MarshalError,
>)
    ensures
        match (r, read_slots_spec(reads@, t, n as nat)) {
            (Ok(v), Ok(s)) => v@ == s && s.len() == n,
            (Err(e), Err(f)) => e == f,
            _ => false,
        },
{
    let mut vals: Vec<T> = Vec::new();
    let mut i: usize = 0;
    while i < n
        invariant
            i <= n,
            vals@.len() == i,
            read_slots_spec(reads@, t, i as nat) == Ok::<Seq<T>, MarshalError>(vals@),
        decreases n - i,
    {
        let read = if i < reads.len() {
            reads[i]
        } else {
            SlotRead::Missing
        };
        match read {
            SlotRead::Value(v) => {
                vals.push(v);
            },
            SlotRead::Missing => {
                let e = MarshalError::FieldMissing { target: t, slot: i };
                proof {
                    lemma_error_persists(reads@, t, (i + 1) as nat, n as nat);
                }
                return Err(e);
            },
            SlotRead::Mismatch(o) => {
                let e = MarshalError::FieldTypeMismatch { target: t, slot: i, observed: o };
                proof {
                    lemma_error_persists(reads@, t, (i + 1) as nat, n as nat);
                }
                return Err(e);
            },
            SlotRead::OutOfRange(o) => {
                let e = MarshalError::FieldOutOfRange { target: t, slot: i, observed: o };
                proof {
                    lemma_error_persists(reads@, t, (i + 1) as nat, n as nat);
                }
                return Err(e);
            },
        }
        i = i + 1;
    }
    Ok(vals)
}

} // verus!
