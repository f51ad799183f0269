//! The closed sum types over the typed wrappers, their classifiers, and the
//! downcast operations.
//!
//! Classification is the central algorithm: query the handle's type kind and
//! map kind to variant, with an explicit fatal condition for vector types and
//! for any kind outside the closed set. A downcast succeeds exactly when the
//! active variant is the one asked for; otherwise it reports the mismatch.

use vstd::prelude::*;

use crate::function::FunctionValue;
use crate::kinds::{is_basic_kind, is_float_kind, FatalError, TypeKind, VariantTag};
use crate::unit::{IrUnit, RawHandle};
use crate::values::{AnyValue, ArrayValue, BasicValue, FloatValue, IntValue, PhiValue, PointerValue, StructValue, Value};

verus! {

/// The sum of the first-class value wrappers.
#[derive(Clone, Copy, Debug, PartialEq, Eq, Structural)]
pub enum BasicValueEnum {
    ArrayValue(ArrayValue),
    IntValue(IntValue),
    FloatValue(FloatValue),
    PointerValue(PointerValue),
    StructValue(StructValue),
}

/// The sum of every value wrapper, the function and merge wrappers included.
#[derive(Clone, Copy, Debug, PartialEq, Eq, Structural)]
pub enum AnyValueEnum {
    ArrayValue(ArrayValue),
    IntValue(IntValue),
    FloatValue(FloatValue),
    PhiValue(PhiValue),
    FunctionValue(FunctionValue),
    PointerValue(PointerValue),
    StructValue(StructValue),
}

/// The variant that classification gives a handle of a first-class kind: the
/// tag is derived from the kind alone, the payload wraps the handle.
pub open spec fn spec_classify_basic(unit: IrUnit, h: RawHandle) -> BasicValueEnum
    recommends
        unit.valid(h),
        is_basic_kind(unit.kind_of(h)),
{
    let k = unit.kind_of(h);
    if is_float_kind(k) {
        BasicValueEnum::FloatValue(FloatValue { float_value: Value { handle: h } })
    } else if k is Integer {
        BasicValueEnum::IntValue(IntValue { int_value: Value { handle: h } })
    } else if k is Struct {
        BasicValueEnum::StructValue(StructValue { struct_value: Value { handle: h } })
    } else if k is Pointer {
        BasicValueEnum::PointerValue(PointerValue { ptr_value: Value { handle: h } })
    } else {
        BasicValueEnum::ArrayValue(ArrayValue { array_value: Value { handle: h } })
    }
}

/// Whether a handle can be classified into the broad sum: a function or merge
/// role, or a first-class kind.
pub open spec fn any_classifiable(unit: IrUnit, h: RawHandle) -> bool {
    ||| unit.is_function(h)
    ||| unit.is_merge(h)
    ||| is_basic_kind(unit.kind_of(h))
}

/// The variant that classification gives any classifiable handle: the role is
/// consulted first, then the type kind.
pub open spec fn spec_classify_any(unit: IrUnit, h: RawHandle) -> AnyValueEnum
    recommends
        unit.valid(h),
        any_classifiable(unit, h),
{
    if unit.is_function(h) {
        AnyValueEnum::FunctionValue(FunctionValue { fn_value: Value { handle: h } })
    } else if unit.is_merge(h) {
        AnyValueEnum::PhiValue(PhiValue { phi_value: Value { handle: h } })
    } else {
        match spec_classify_basic(unit, h) {
            BasicValueEnum::ArrayValue(v) => AnyValueEnum::ArrayValue(v),
            BasicValueEnum::IntValue(v) => AnyValueEnum::IntValue(v),
            BasicValueEnum::FloatValue(v) => AnyValueEnum::FloatValue(v),
            BasicValueEnum::PointerValue(v) => AnyValueEnum::PointerValue(v),
            BasicValueEnum::StructValue(v) => AnyValueEnum::StructValue(v),
        }
    }
}

impl BasicValueEnum {
    /// The tag of the active variant.
    pub open spec fn tag(self) -> VariantTag {
        match self {
            BasicValueEnum::ArrayValue(_) => VariantTag::Array,
            BasicValueEnum::IntValue(_) => VariantTag::Int,
            BasicValueEnum::FloatValue(_) => VariantTag::Float,
            BasicValueEnum::PointerValue(_) => VariantTag::Pointer,
            BasicValueEnum::StructValue(_) => VariantTag::Struct,
        }
    }

    /// The active variant's wrapper is well-formed against the unit.
    pub open spec fn wf(self, unit: IrUnit) -> bool {
        match self {
            BasicValueEnum::ArrayValue(v) => v.wf(unit),
            BasicValueEnum::IntValue(v) => v.wf(unit),
            BasicValueEnum::FloatValue(v) => v.wf(unit),
            BasicValueEnum::PointerValue(v) => v.wf(unit),
            BasicValueEnum::StructValue(v) => v.wf(unit),
        }
    }

    /// Names the active variant.
    pub fn variant_tag(&self) -> (t: VariantTag)
        ensures
            t == self.tag(),
    {
        match self {
            BasicValueEnum::ArrayValue(_) => VariantTag::Array,
            BasicValueEnum::IntValue(_) => VariantTag::Int,
            BasicValueEnum::FloatValue(_) => VariantTag::Float,
            BasicValueEnum::PointerValue(_) => VariantTag::Pointer,
            BasicValueEnum::StructValue(_) => VariantTag::Struct,
        }
    }

    /// Classifies a handle by its type kind into the first-class sum. A null
    /// handle, a vector kind and an unrecognized kind are fatal conditions.
    pub fn classify(unit: &IrUnit, handle: RawHandle) -> (r: Result<BasicValueEnum, FatalError>)
        requires
            handle.is_null() || unit.valid(handle),
        ensures
            r is Ok <==> (!handle.is_null() && is_basic_kind(unit.kind_of(handle))),
            r matches Ok(v) ==> v == spec_classify_basic(*unit, handle) && v.wf(*unit),
            handle.is_null() ==> r == Err::<BasicValueEnum, FatalError>(FatalError::NullHandle),
            !handle.is_null() && unit.kind_of(handle) is Vector ==> r == Err::<
                BasicValueEnum,
                FatalError,
            >(FatalError::UnsupportedVectorKind),
            !handle.is_null() && !is_basic_kind(unit.kind_of(handle)) && !(unit.kind_of(handle)
                is Vector) ==> r == Err::<BasicValueEnum, FatalError>(FatalError::UnrecognizedKind),
    {
        if handle.raw == 0 {
            return Err(FatalError::NullHandle);
        }
        let kind = unit.values[handle.raw - 1].kind;
        match kind {
            TypeKind::Half
            | TypeKind::Float
            | TypeKind::Double
            | TypeKind::X86Fp80
            | TypeKind::Fp128
            | TypeKind::PpcFp128 => Ok(
                BasicValueEnum::FloatValue(FloatValue { float_value: Value { handle } }),
            ),
            TypeKind::Integer => Ok(BasicValueEnum::IntValue(IntValue { int_value: Value { handle } })),
            TypeKind::Struct => Ok(
                BasicValueEnum::StructValue(StructValue { struct_value: Value { handle } }),
            ),
            TypeKind::Pointer => Ok(
                BasicValueEnum::PointerValue(PointerValue { ptr_value: Value { handle } }),
            ),
            TypeKind::Array => Ok(
                BasicValueEnum::ArrayValue(ArrayValue { array_value: Value { handle } }),
            ),
            TypeKind::Vector => Err(FatalError::UnsupportedVectorKind),
            _ => Err(FatalError::UnrecognizedKind),
        }
    }

    /// Downcast to the integer wrapper, consuming; exactly the integer variant
    /// succeeds.
    pub fn into_int_value(self) -> (r: Result<IntValue, FatalError>)
        ensures
            r is Ok <==> self is IntValue,
            r matches Ok(v) ==> self == BasicValueEnum::IntValue(v),
            !(self is IntValue) ==> r == Err::<IntValue, FatalError>(
                FatalError::DowncastMismatch { expected: VariantTag::Int, actual: self.tag() },
            ),
    {
        if let BasicValueEnum::IntValue(v) = self {
            Ok(v)
        } else {
            Err(FatalError::DowncastMismatch { expected: VariantTag::Int, actual: self.variant_tag() })
        }
    }

    /// Downcast to the float wrapper, consuming; exactly the float variant
    /// succeeds.
    pub fn into_float_value(self) -> (r: Result<FloatValue, FatalError>)
        ensures
            r is Ok <==> self is FloatValue,
            r matches Ok(v) ==> self == BasicValueEnum::FloatValue(v),
            !(self is FloatValue) ==> r == Err::<FloatValue, FatalError>(
                FatalError::DowncastMismatch { expected: VariantTag::Float, actual: self.tag() },
            ),
    {
        if let BasicValueEnum::FloatValue(v) = self {
            Ok(v)
        } else {
            Err(FatalError::DowncastMismatch { expected: VariantTag::Float, actual: self.variant_tag() })
        }
    }

    /// Downcast to the pointer wrapper, consuming; exactly the pointer variant
    /// succeeds.
    pub fn into_pointer_value(self) -> (r: Result<PointerValue, FatalError>)
        ensures
            r is Ok <==> self is PointerValue,
            r matches Ok(v) ==> self == BasicValueEnum::PointerValue(v),
            !(self is PointerValue) ==> r == Err::<PointerValue, FatalError>(
                FatalError::DowncastMismatch { expected: VariantTag::Pointer, actual: self.tag() },
            ),
    {
        if let BasicValueEnum::PointerValue(v) = self {
            Ok(v)
        } else {
            Err(FatalError::DowncastMismatch { expected: VariantTag::Pointer, actual: self.variant_tag() })
        }
    }

    /// Downcast to the struct wrapper, consuming; exactly the struct variant
    /// succeeds.
    pub fn into_struct_value(self) -> (r: Result<StructValue, FatalError>)
        ensures
            r is Ok <==> self is StructValue,
            r matches Ok(v) ==> self == BasicValueEnum::StructValue(v),
            !(self is StructValue) ==> r == Err::<StructValue, FatalError>(
                FatalError::DowncastMismatch { expected: VariantTag::Struct, actual: self.tag() },
            ),
    {
        if let BasicValueEnum::StructValue(v) = self {
            Ok(v)
        } else {
            Err(FatalError::DowncastMismatch { expected: VariantTag::Struct, actual: self.variant_tag() })
        }
    }

    /// Downcast to the array wrapper, consuming; exactly the array variant
    /// succeeds.
    pub fn into_array_value(self) -> (r: Result<ArrayValue, FatalError>)
        ensures
            r is Ok <==> self is ArrayValue,
            r matches Ok(v) ==> self == BasicValueEnum::ArrayValue(v),
            !(self is ArrayValue) ==> r == Err::<ArrayValue, FatalError>(
                FatalError::DowncastMismatch { expected: VariantTag::Array, actual: self.tag() },
            ),
    {
        if let BasicValueEnum::ArrayValue(v) = self {
            Ok(v)
        } else {
            Err(FatalError::DowncastMismatch { expected: VariantTag::Array, actual: self.variant_tag() })
        }
    }

    /// Downcast to the integer wrapper, borrowing.
    pub fn as_int_value(&self) -> (r: Result<&IntValue, FatalError>)
        ensures
            r is Ok <==> self is IntValue,
            r matches Ok(v) ==> *self == BasicValueEnum::IntValue(*v),
            !(self is IntValue) ==> r == Err::<&IntValue, FatalError>(
                FatalError::DowncastMismatch { expected: VariantTag::Int, actual: self.tag() },
            ),
    {
        if let BasicValueEnum::IntValue(v) = self {
            Ok(v)
        } else {
            Err(FatalError::DowncastMismatch { expected: VariantTag::Int, actual: self.variant_tag() })
        }
    }

    /// Downcast to the float wrapper, borrowing.
    pub fn as_float_value(&self) -> (r: Result<&FloatValue, FatalError>)
        ensures
            r is Ok <==> self is FloatValue,
            r matches Ok(v) ==> *self == BasicValueEnum::FloatValue(*v),
            !(self is FloatValue) ==> r == Err::<&FloatValue, FatalError>(
                FatalError::DowncastMismatch { expected: VariantTag::Float, actual: self.tag() },
            ),
    {
        if let BasicValueEnum::FloatValue(v) = self {
            Ok(v)
        } else {
            Err(FatalError::DowncastMismatch { expected: VariantTag::Float, actual: self.variant_tag() })
        }
    }

    /// Downcast to the pointer wrapper, borrowing.
    pub fn as_pointer_value(&self) -> (r: Result<&PointerValue, FatalError>)
        ensures
            r is Ok <==> self is PointerValue,
            r matches Ok(v) ==> *self == BasicValueEnum::PointerValue(*v),
            !(self is PointerValue) ==> r == Err::<&PointerValue, FatalError>(
                FatalError::DowncastMismatch { expected: VariantTag::Pointer, actual: self.tag() },
            ),
    {
        if let BasicValueEnum::PointerValue(v) = self {
            Ok(v)
        } else {
            Err(FatalError::DowncastMismatch { expected: VariantTag::Pointer, actual: self.variant_tag() })
        }
    }

    /// Downcast to the struct wrapper, borrowing.
    pub fn as_struct_value(&self) -> (r: Result<&StructValue, FatalError>)
        ensures
            r is Ok <==> self is StructValue,
            r matches Ok(v) ==> *self == BasicValueEnum::StructValue(*v),
            !(self is StructValue) ==> r == Err::<&StructValue, FatalError>(
                FatalError::DowncastMismatch { expected: VariantTag::Struct, actual: self.tag() },
            ),
    {
        if let BasicValueEnum::StructValue(v) = self {
            Ok(v)
        } else {
            Err(FatalError::DowncastMismatch { expected: VariantTag::Struct, actual: self.variant_tag() })
        }
    }

    /// Downcast to the array wrapper, borrowing.
    pub fn as_array_value(&self) -> (r: Result<&ArrayValue, FatalError>)
        ensures
            r is Ok <==> self is ArrayValue,
            r matches Ok(v) ==> *self == BasicValueEnum::ArrayValue(*v),
            !(self is ArrayValue) ==> r == Err::<&ArrayValue, FatalError>(
                FatalError::DowncastMismatch { expected: VariantTag::Array, actual: self.tag() },
            ),
    {
        if let BasicValueEnum::ArrayValue(v) = self {
            Ok(v)
        } else {
            Err(FatalError::DowncastMismatch { expected: VariantTag::Array, actual: self.variant_tag() })
        }
    }
}

impl AnyValue for BasicValueEnum {
    open spec fn base(&self) -> Value {
        match *self {
            BasicValueEnum::ArrayValue(v) => v.array_value,
            BasicValueEnum::IntValue(v) => v.int_value,
            BasicValueEnum::FloatValue(v) => v.float_value,
            BasicValueEnum::PointerValue(v) => v.ptr_value,
            BasicValueEnum::StructValue(v) => v.struct_value,
        }
    }

    fn as_value(&self) -> (v: Value) {
        match self {
            BasicValueEnum::ArrayValue(v) => v.array_value,
            BasicValueEnum::IntValue(v) => v.int_value,
            BasicValueEnum::FloatValue(v) => v.float_value,
            BasicValueEnum::PointerValue(v) => v.ptr_value,
            BasicValueEnum::StructValue(v) => v.struct_value,
        }
    }
}

impl BasicValue for BasicValueEnum {

}

impl AnyValueEnum {
    /// The tag of the active variant.
    pub open spec fn tag(self) -> VariantTag {
        match self {
            AnyValueEnum::ArrayValue(_) => VariantTag::Array,
            AnyValueEnum::IntValue(_) => VariantTag::Int,
            AnyValueEnum::FloatValue(_) => VariantTag::Float,
            AnyValueEnum::PhiValue(_) => VariantTag::Phi,
            AnyValueEnum::FunctionValue(_) => VariantTag::Function,
            AnyValueEnum::PointerValue(_) => VariantTag::Pointer,
            AnyValueEnum::StructValue(_) => VariantTag::Struct,
        }
    }

    /// The active variant's wrapper is well-formed against the unit.
    pub open spec fn wf(self, unit: IrUnit) -> bool {
        match self {
            AnyValueEnum::ArrayValue(v) => v.wf(unit),
            AnyValueEnum::IntValue(v) => v.wf(unit),
            AnyValueEnum::FloatValue(v) => v.wf(unit),
            AnyValueEnum::PhiValue(v) => v.wf(unit),
            AnyValueEnum::FunctionValue(v) => v.wf(unit),
            AnyValueEnum::PointerValue(v) => v.wf(unit),
            AnyValueEnum::StructValue(v) => v.wf(unit),
        }
    }

    /// Names the active variant.
    pub fn variant_tag(&self) -> (t: VariantTag)
        ensures
            t == self.tag(),
    {
        match self {
            AnyValueEnum::ArrayValue(_) => VariantTag::Array,
            AnyValueEnum::IntValue(_) => VariantTag::Int,
            AnyValueEnum::FloatValue(_) => VariantTag::Float,
            AnyValueEnum::PhiValue(_) => VariantTag::Phi,
            AnyValueEnum::FunctionValue(_) => VariantTag::Function,
            AnyValueEnum::PointerValue(_) => VariantTag::Pointer,
            AnyValueEnum::StructValue(_) => VariantTag::Struct,
        }
    }

    /// Classifies a handle into the broad sum: a function or merge role first,
    /// then the type-kind table. A null handle, a vector kind and an
    /// unrecognized kind are fatal conditions.
    pub fn classify(unit: &IrUnit, handle: RawHandle) -> (r: Result<AnyValueEnum, FatalError>)
        requires
            handle.is_null() || unit.valid(handle),
        ensures
            r is Ok <==> (!handle.is_null() && any_classifiable(*unit, handle)),
            r matches Ok(v) ==> v == spec_classify_any(*unit, handle) && v.wf(*unit),
            handle.is_null() ==> r == Err::<AnyValueEnum, FatalError>(FatalError::NullHandle),
            !handle.is_null() && !any_classifiable(*unit, handle) && unit.kind_of(handle)
                is Vector ==> r == Err::<AnyValueEnum, FatalError>(FatalError::UnsupportedVectorKind),
            !handle.is_null() && !any_classifiable(*unit, handle) && !(unit.kind_of(handle)
                is Vector) ==> r == Err::<AnyValueEnum, FatalError>(FatalError::UnrecognizedKind),
    {
        if handle.raw == 0 {
            return Err(FatalError::NullHandle);
        }
        match &unit.values[handle.raw - 1].extra {
            crate::unit::ValueExtra::Function(_) => {
                return Ok(AnyValueEnum::FunctionValue(FunctionValue { fn_value: Value { handle } }));
            },
            crate::unit::ValueExtra::Merge(_) => {
                return Ok(AnyValueEnum::PhiValue(PhiValue { phi_value: Value { handle } }));
            },
            crate::unit::ValueExtra::Plain => {},
        }
        match BasicValueEnum::classify(unit, handle) {
            Ok(BasicValueEnum::ArrayValue(v)) => Ok(AnyValueEnum::ArrayValue(v)),
            Ok(BasicValueEnum::IntValue(v)) => Ok(AnyValueEnum::IntValue(v)),
            Ok(BasicValueEnum::FloatValue(v)) => Ok(AnyValueEnum::FloatValue(v)),
            Ok(BasicValueEnum::PointerValue(v)) => Ok(AnyValueEnum::PointerValue(v)),
            Ok(BasicValueEnum::StructValue(v)) => Ok(AnyValueEnum::StructValue(v)),
            Err(e) => Err(e),
        }
    }

    /// Downcast to the integer wrapper, consuming; exactly the integer variant
    /// succeeds.
    pub fn into_int_value(self) -> (r: Result<IntValue, FatalError>)
        ensures
            r is Ok <==> self is IntValue,
            r matches Ok(v) ==> self == AnyValueEnum::IntValue(v),
            !(self is IntValue) ==> r == Err::<IntValue, FatalError>(
                FatalError::DowncastMismatch { expected: VariantTag::Int, actual: self.tag() },
            ),
    {
        if let AnyValueEnum::IntValue(v) = self {
            Ok(v)
        } else {
            Err(FatalError::DowncastMismatch { expected: VariantTag::Int, actual: self.variant_tag() })
        }
    }

    /// Downcast to the float wrapper, consuming; exactly the float variant
    /// succeeds.
    pub fn into_float_value(self) -> (r: Result<FloatValue, FatalError>)
        ensures
            r is Ok <==> self is FloatValue,
            r matches Ok(v) ==> self == AnyValueEnum::FloatValue(v),
            !(self is FloatValue) ==> r == Err::<FloatValue, FatalError>(
                FatalError::DowncastMismatch { expected: VariantTag::Float, actual: self.tag() },
            ),
    {
        if let AnyValueEnum::FloatValue(v) = self {
            Ok(v)
        } else {
            Err(FatalError::DowncastMismatch { expected: VariantTag::Float, actual: self.variant_tag() })
        }
    }

    /// Downcast to the merge wrapper, consuming; exactly the merge variant
    /// succeeds.
    pub fn into_phi_value(self) -> (r: Result<PhiValue, FatalError>)
        ensures
            r is Ok <==> self is PhiValue,
            r matches Ok(v) ==> self == AnyValueEnum::PhiValue(v),
            !(self is PhiValue) ==> r == Err::<PhiValue, FatalError>(
                FatalError::DowncastMismatch { expected: VariantTag::Phi, actual: self.tag() },
            ),
    {
        if let AnyValueEnum::PhiValue(v) = self {
            Ok(v)
        } else {
            Err(FatalError::DowncastMismatch { expected: VariantTag::Phi, actual: self.variant_tag() })
        }
    }

    /// Downcast to the function wrapper, consuming; exactly the function
    /// variant succeeds.
    pub fn into_function_value(self) -> (r: Result<FunctionValue, FatalError>)
        ensures
            r is Ok <==> self is FunctionValue,
            r matches Ok(v) ==> self == AnyValueEnum::FunctionValue(v),
            !(self is FunctionValue) ==> r == Err::<FunctionValue, FatalError>(
                FatalError::DowncastMismatch { expected: VariantTag::Function, actual: self.tag() },
            ),
    {
        if let AnyValueEnum::FunctionValue(v) = self {
            Ok(v)
        } else {
            Err(
                FatalError::DowncastMismatch {
                    expected: VariantTag::Function,
                    actual: self.variant_tag(),
                },
            )
        }
    }

    /// Downcast to the pointer wrapper, consuming; exactly the pointer variant
    /// succeeds.
    pub fn into_pointer_value(self) -> (r: Result<PointerValue, FatalError>)
        ensures
            r is Ok <==> self is PointerValue,
            r matches Ok(v) ==> self == AnyValueEnum::PointerValue(v),
            !(self is PointerValue) ==> r == Err::<PointerValue, FatalError>(
                FatalError::DowncastMismatch { expected: VariantTag::Pointer, actual: self.tag() },
            ),
    {
        if let AnyValueEnum::PointerValue(v) = self {
            Ok(v)
        } else {
            Err(FatalError::DowncastMismatch { expected: VariantTag::Pointer, actual: self.variant_tag() })
        }
    }

    /// Downcast to the struct wrapper, consuming; exactly the struct variant
    /// succeeds.
    pub fn into_struct_value(self) -> (r: Result<StructValue, FatalError>)
        ensures
            r is Ok <==> self is StructValue,
            r matches Ok(v) ==> self == AnyValueEnum::StructValue(v),
            !(self is StructValue) ==> r == Err::<StructValue, FatalError>(
                FatalError::DowncastMismatch { expected: VariantTag::Struct, actual: self.tag() },
            ),
    {
        if let AnyValueEnum::StructValue(v) = self {
            Ok(v)
        } else {
            Err(FatalError::DowncastMismatch { expected: VariantTag::Struct, actual: self.variant_tag() })
        }
    }

    /// Downcast to the array wrapper, consuming; exactly the array variant
    /// succeeds.
    pub fn into_array_value(self) -> (r: Result<ArrayValue, FatalError>)
        ensures
            r is Ok <==> self is ArrayValue,
            r matches Ok(v) ==> self == AnyValueEnum::ArrayValue(v),
            !(self is ArrayValue) ==> r == Err::<ArrayValue, FatalError>(
                FatalError::DowncastMismatch { expected: VariantTag::Array, actual: self.tag() },
            ),
    {
        if let AnyValueEnum::ArrayValue(v) = self {
            Ok(v)
        } else {
            Err(FatalError::DowncastMismatch { expected: VariantTag::Array, actual: self.variant_tag() })
        }
    }

    /// Downcast to the integer wrapper, borrowing.
    pub fn as_int_value(&self) -> (r: Result<&IntValue, FatalError>)
        ensures
            r is Ok <==> self is IntValue,
            r matches Ok(v) ==> *self == AnyValueEnum::IntValue(*v),
            !(self is IntValue) ==> r == Err::<&IntValue, FatalError>(
                FatalError::DowncastMismatch { expected: VariantTag::Int, actual: self.tag() },
            ),
    {
        if let AnyValueEnum::IntValue(v) = self {
            Ok(v)
        } else {
            Err(FatalError::DowncastMismatch { expected: VariantTag::Int, actual: self.variant_tag() })
        }
    }

    /// Downcast to the float wrapper, borrowing.
    pub fn as_float_value(&self) -> (r: Result<&FloatValue, FatalError>)
        ensures
            r is Ok <==> self is FloatValue,
            r matches Ok(v) ==> *self == AnyValueEnum::FloatValue(*v),
            !(self is FloatValue) ==> r == Err::<&FloatValue, FatalError>(
                FatalError::DowncastMismatch { expected: VariantTag::Float, actual: self.tag() },
            ),
    {
        if let AnyValueEnum::FloatValue(v) = self {
            Ok(v)
        } else {
            Err(FatalError::DowncastMismatch { expected: VariantTag::Float, actual: self.variant_tag() })
        }
    }

    /// Downcast to the merge wrapper, borrowing.
    pub fn as_phi_value(&self) -> (r: Result<&PhiValue, FatalError>)
        ensures
            r is Ok <==> self is PhiValue,
            r matches Ok(v) ==> *self == AnyValueEnum::PhiValue(*v),
            !(self is PhiValue) ==> r == Err::<&PhiValue, FatalError>(
                FatalError::DowncastMismatch { expected: VariantTag::Phi, actual: self.tag() },
            ),
    {
        if let AnyValueEnum::PhiValue(v) = self {
            Ok(v)
        } else {
            Err(FatalError::DowncastMismatch { expected: VariantTag::Phi, actual: self.variant_tag() })
        }
    }

    /// Downcast to the function wrapper, borrowing.
    pub fn as_function_value(&self) -> (r: Result<&FunctionValue, FatalError>)
        ensures
            r is Ok <==> self is FunctionValue,
            r matches Ok(v) ==> *self == AnyValueEnum::FunctionValue(*v),
            !(self is FunctionValue) ==> r == Err::<&FunctionValue, FatalError>(
                FatalError::DowncastMismatch { expected: VariantTag::Function, actual: self.tag() },
            ),
    {
        if let AnyValueEnum::FunctionValue(v) = self {
            Ok(v)
        } else {
            Err(
                FatalError::DowncastMismatch {
                    expected: VariantTag::Function,
                    actual: self.variant_tag(),
                },
            )
        }
    }

    /// Downcast to the pointer wrapper, borrowing.
    pub fn as_pointer_value(&self) -> (r: Result<&PointerValue, FatalError>)
        ensures
            r is Ok <==> self is PointerValue,
            r matches Ok(v) ==> *self == AnyValueEnum::PointerValue(*v),
            !(self is PointerValue) ==> r == Err::<&PointerValue, FatalError>(
                FatalError::DowncastMismatch { expected: VariantTag::Pointer, actual: self.tag() },
            ),
    {
        if let AnyValueEnum::PointerValue(v) = self {
            Ok(v)
        } else {
            Err(FatalError::DowncastMismatch { expected: VariantTag::Pointer, actual: self.variant_tag() })
        }
    }

    /// Downcast to the struct wrapper, borrowing.
    pub fn as_struct_value(&self) -> (r: Result<&StructValue, FatalError>)
        ensures
            r is Ok <==> self is StructValue,
            r matches Ok(v) ==> *self == AnyValueEnum::StructValue(*v),
            !(self is StructValue) ==> r == Err::<&StructValue, FatalError>(
                FatalError::DowncastMismatch { expected: VariantTag::Struct, actual: self.tag() },
            ),
    {
        if let AnyValueEnum::StructValue(v) = self {
            Ok(v)
        } else {
            Err(FatalError::DowncastMismatch { expected: VariantTag::Struct, actual: self.variant_tag() })
        }
    }

    /// Downcast to the array wrapper, borrowing.
    pub fn as_array_value(&self) -> (r: Result<&ArrayValue, FatalError>)
        ensures
            r is Ok <==> self is ArrayValue,
            r matches Ok(v) ==> *self == AnyValueEnum::ArrayValue(*v),
            !(self is ArrayValue) ==> r == Err::<&ArrayValue, FatalError>(
                FatalError::DowncastMismatch { expected: VariantTag::Array, actual: self.tag() },
            ),
    {
        if let AnyValueEnum::ArrayValue(v) = self {
            Ok(v)
        } else {
            Err(FatalError::DowncastMismatch { expected: VariantTag::Array, actual: self.variant_tag() })
        }
    }
}

impl AnyValue for AnyValueEnum {
    open spec fn base(&self) -> Value {
        match *self {
            AnyValueEnum::ArrayValue(v) => v.array_value,
            AnyValueEnum::IntValue(v) => v.int_value,
            AnyValueEnum::FloatValue(v) => v.float_value,
            AnyValueEnum::PhiValue(v) => v.phi_value,
            AnyValueEnum::FunctionValue(v) => v.fn_value,
            AnyValueEnum::PointerValue(v) => v.ptr_value,
            AnyValueEnum::StructValue(v) => v.struct_value,
        }
    }

    fn as_value(&self) -> (v: Value) {
        match self {
            AnyValueEnum::ArrayValue(v) => v.array_value,
            AnyValueEnum::IntValue(v) => v.int_value,
            AnyValueEnum::FloatValue(v) => v.float_value,
            AnyValueEnum::PhiValue(v) => v.phi_value,
            AnyValueEnum::FunctionValue(v) => v.fn_value,
            AnyValueEnum::PointerValue(v) => v.ptr_value,
            AnyValueEnum::StructValue(v) => v.struct_value,
        }
    }
}

} // verus!
