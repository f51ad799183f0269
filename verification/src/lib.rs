//! A typed value layer over a compiler's intermediate representation (IR).
//!
//! Raw IR handles are opaque indices into a side table owned by an
//! [`unit::IrUnit`], the compilation unit. The library wraps such handles into
//! a closed hierarchy of typed values (integer, float, struct, pointer, array,
//! control-flow merge, function), classifies handles into sum types by their
//! type kind, and offers parameter iteration, incoming-edge registration and a
//! structural well-formedness check over functions.

pub mod blocks;
pub mod enums;
pub mod function;
pub mod kinds;
pub mod laws;
pub mod render;
pub mod types;
pub mod unit;
pub mod values;
