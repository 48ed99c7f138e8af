//! Fixed-size vector and matrix types for a scripting environment, with the
//! rules that decide which operations each element kind gets and how values
//! are laid out in a scripting table.
//!
//! - `scalar`: element kinds, and the exact integer arithmetic the element
//!   types provide.
//! - `family`: the members of the family, their names, their capabilities
//!   and their conversions.
//! - `vec2`, `vec3`, `vec4`, `mat2`, `mat3`, `mat4`: the vector and matrix
//!   types, generic over the element type.
//! - `linear`: the matrix algebra the matrix operations are stated in.
//! - `marshal`: slot reads, marshalling errors and their messages.
//! - `registry`: the metatable of each type, looked up on export.

pub mod family;
pub mod linear;
pub mod marshal;
pub mod mat2;
pub mod mat3;
pub mod mat4;
pub mod registry;
pub mod scalar;
pub mod vec2;
pub mod vec3;
pub mod vec4;
