//! The closed set of IR type kinds, the variant tags of the sum types, and the
//! fail-fast error kind.
//!
//! Every fatal condition of the value layer (a null handle, an unclassifiable
//! type kind, a downcast on the wrong variant, a failed function check) is an
//! explicit [`FatalError`], kept apart from recoverable absence results.

use vstd::prelude::*;

verus! {

/// Broad category of an IR type, as the foreign type-kind query reports it.
#[derive(Clone, Copy, Debug, PartialEq, Eq, Structural)]
pub enum TypeKind {
    Void,
    Half,
    Float,
    Double,
    X86Fp80,
    Fp128,
    PpcFp128,
    Label,
    Integer,
    Function,
    Struct,
    Array,
    Pointer,
    Vector,
    Metadata,
    Token,
}

/// The floating-point family of type kinds.
pub open spec fn is_float_kind(k: TypeKind) -> bool {
    ||| k is Half
    ||| k is Float
    ||| k is Double
    ||| k is X86Fp80
    ||| k is Fp128
    ||| k is PpcFp128
}

/// Kinds of first-class storable values: the kinds the basic sum type covers.
pub open spec fn is_basic_kind(k: TypeKind) -> bool {
    ||| is_float_kind(k)
    ||| k is Integer
    ||| k is Struct
    ||| k is Pointer
    ||| k is Array
}

/// Names one variant of the value sum types, for downcast diagnostics.
#[derive(Clone, Copy, Debug, PartialEq, Eq, Structural)]
pub enum VariantTag {
    Array,
    Int,
    Float,
    Phi,
    Function,
    Pointer,
    Struct,
}

/// A condition the foreign API treats as a caller bug: fail-fast, never a
/// silent default. Recoverable absences are `Option` results instead.
#[derive(Clone, Copy, Debug, PartialEq, Eq, Structural)]
pub enum FatalError {
    /// A null handle reached a wrapper constructor.
    NullHandle,
    /// A non-function handle reached the function wrapper constructor.
    NotAFunction,
    /// Classification met a vector type, which the value layer does not cover.
    UnsupportedVectorKind,
    /// Classification met a kind outside the closed set it knows.
    UnrecognizedKind,
    /// A downcast was asked for a variant other than the active one.
    DowncastMismatch { expected: VariantTag, actual: VariantTag },
    /// The structural check found the function ill-formed.
    InvalidFunction,
    /// A requested name holds an interior terminator the foreign string
    /// representation cannot carry.
    NameHasInteriorNul,
    /// An incoming-edge registration named a pair count other than one.
    IncomingCountMismatch,
}

} // verus!
