//! The slice of the type-system collaborator that the value layer consumes:
//! classification of a type kind into the type sum types.

use vstd::prelude::*;

use crate::kinds::{is_basic_kind, is_float_kind, FatalError, TypeKind};

verus! {

/// Classification of any IR type the unit can hold.
#[derive(Clone, Copy, Debug, PartialEq, Eq, Structural)]
pub enum AnyTypeEnum {
    VoidType,
    /// Carries the flavor, one of the floating-point family of kinds.
    FloatType(TypeKind),
    LabelType,
    IntType,
    FunctionType,
    StructType,
    ArrayType,
    PointerType,
    VectorType,
    MetadataType,
    TokenType,
}

/// Classification of a first-class storable IR type.
#[derive(Clone, Copy, Debug, PartialEq, Eq, Structural)]
pub enum BasicTypeEnum {
    /// Carries the flavor, one of the floating-point family of kinds.
    FloatType(TypeKind),
    IntType,
    StructType,
    ArrayType,
    PointerType,
}

/// The total mapping from a type kind to its classification.
pub open spec fn spec_any_type_of(k: TypeKind) -> AnyTypeEnum {
    match k {
        TypeKind::Void => AnyTypeEnum::VoidType,
        TypeKind::Half => AnyTypeEnum::FloatType(k),
        TypeKind::Float => AnyTypeEnum::FloatType(k),
        TypeKind::Double => AnyTypeEnum::FloatType(k),
        TypeKind::X86Fp80 => AnyTypeEnum::FloatType(k),
        TypeKind::Fp128 => AnyTypeEnum::FloatType(k),
        TypeKind::PpcFp128 => AnyTypeEnum::FloatType(k),
        TypeKind::Label => AnyTypeEnum::LabelType,
        TypeKind::Integer => AnyTypeEnum::IntType,
        TypeKind::Function => AnyTypeEnum::FunctionType,
        TypeKind::Struct => AnyTypeEnum::StructType,
        TypeKind::Array => AnyTypeEnum::ArrayType,
        TypeKind::Pointer => AnyTypeEnum::PointerType,
        TypeKind::Vector => AnyTypeEnum::VectorType,
        TypeKind::Metadata => AnyTypeEnum::MetadataType,
        TypeKind::Token => AnyTypeEnum::TokenType,
    }
}

/// The mapping from a first-class type kind to its classification, defined
/// exactly on the kinds `is_basic_kind` admits.
pub open spec fn spec_basic_type_of(k: TypeKind) -> BasicTypeEnum
    recommends
        is_basic_kind(k),
{
    if is_float_kind(k) {
        BasicTypeEnum::FloatType(k)
    } else if k is Integer {
        BasicTypeEnum::IntType
    } else if k is Struct {
        BasicTypeEnum::StructType
    } else if k is Array {
        BasicTypeEnum::ArrayType
    } else {
        BasicTypeEnum::PointerType
    }
}

impl AnyTypeEnum {
    /// Classifies any type kind; total over the closed kind set.
    pub fn classify(kind: TypeKind) -> (r: AnyTypeEnum)
        ensures
            r == spec_any_type_of(kind),
    {
        match kind {
            TypeKind::Void => AnyTypeEnum::VoidType,
            TypeKind::Half => AnyTypeEnum::FloatType(kind),
            TypeKind::Float => AnyTypeEnum::FloatType(kind),
            TypeKind::Double => AnyTypeEnum::FloatType(kind),
            TypeKind::X86Fp80 => AnyTypeEnum::FloatType(kind),
            TypeKind::Fp128 => AnyTypeEnum::FloatType(kind),
            TypeKind::PpcFp128 => AnyTypeEnum::FloatType(kind),
            TypeKind::Label => AnyTypeEnum::LabelType,
            TypeKind::Integer => AnyTypeEnum::IntType,
            TypeKind::Function => AnyTypeEnum::FunctionType,
            TypeKind::Struct => AnyTypeEnum::StructType,
            TypeKind::Array => AnyTypeEnum::ArrayType,
            TypeKind::Pointer => AnyTypeEnum::PointerType,
            TypeKind::Vector => AnyTypeEnum::VectorType,
            TypeKind::Metadata => AnyTypeEnum::MetadataType,
            TypeKind::Token => AnyTypeEnum::TokenType,
        }
    }
}

impl BasicTypeEnum {
    /// Classifies a type kind into the first-class type sum, rejecting vector
    /// types and any kind outside the closed set as fatal conditions.
    pub fn classify(kind: TypeKind) -> (r: Result<BasicTypeEnum, FatalError>)
        ensures
            r is Ok <==> is_basic_kind(kind),
            r matches Ok(t) ==> t == spec_basic_type_of(kind),
            kind is Vector ==> r == Err::<BasicTypeEnum, FatalError>(FatalError::UnsupportedVectorKind),
            !is_basic_kind(kind) && !(kind is Vector) ==> r == Err::<BasicTypeEnum, FatalError>(
                FatalError::UnrecognizedKind,
            ),
    {
        match kind {
            TypeKind::Half
            | TypeKind::Float
            | TypeKind::Double
            | TypeKind::X86Fp80
            | TypeKind::Fp128
            | TypeKind::PpcFp128 => Ok(BasicTypeEnum::FloatType(kind)),
            TypeKind::Integer => Ok(BasicTypeEnum::IntType),
            TypeKind::Struct => Ok(BasicTypeEnum::StructType),
            TypeKind::Array => Ok(BasicTypeEnum::ArrayType),
            TypeKind::Pointer => Ok(BasicTypeEnum::PointerType),
            TypeKind::Vector => Err(FatalError::UnsupportedVectorKind),
            _ => Err(FatalError::UnrecognizedKind),
        }
    }
}

} // verus!
