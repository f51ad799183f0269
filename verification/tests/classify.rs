use ir_values::enums::{AnyValueEnum, BasicValueEnum};
use ir_values::kinds::{FatalError, TypeKind, VariantTag};
use ir_values::unit::{IrUnit, RawHandle, ValueFlags};
use ir_values::values::AnyValue;

fn classified(kind: TypeKind) -> (IrUnit, Result<BasicValueEnum, FatalError>) {
    let mut unit = IrUnit::new();
    let h = unit.add_value(kind, ValueFlags::none());
    let r = BasicValueEnum::classify(&unit, h);
    (unit, r)
}

#[test]
fn every_float_family_kind_classifies_as_float() {
    for kind in [
        TypeKind::Half,
        TypeKind::Float,
        TypeKind::Double,
        TypeKind::X86Fp80,
        TypeKind::Fp128,
        TypeKind::PpcFp128,
    ] {
        let (_, r) = classified(kind);
        assert!(matches!(r, Ok(BasicValueEnum::FloatValue(_))));
    }
}

#[test]
fn integer_struct_pointer_array_classify_to_their_variants() {
    assert!(matches!(classified(TypeKind::Integer).1, Ok(BasicValueEnum::IntValue(_))));
    assert!(matches!(classified(TypeKind::Struct).1, Ok(BasicValueEnum::StructValue(_))));
    assert!(matches!(classified(TypeKind::Pointer).1, Ok(BasicValueEnum::PointerValue(_))));
    assert!(matches!(classified(TypeKind::Array).1, Ok(BasicValueEnum::ArrayValue(_))));
}

#[test]
fn vector_kind_is_a_fatal_classification() {
    assert_eq!(classified(TypeKind::Vector).1, Err(FatalError::UnsupportedVectorKind));
}

#[test]
fn kinds_outside_the_closed_set_are_fatal_classifications() {
    for kind in [TypeKind::Void, TypeKind::Label, TypeKind::Metadata, TypeKind::Token, TypeKind::Function] {
        let (_, r) = classified(kind);
        assert_eq!(r, Err(FatalError::UnrecognizedKind));
    }
}

#[test]
fn classifying_the_null_handle_is_fatal() {
    let unit = IrUnit::new();
    assert_eq!(BasicValueEnum::classify(&unit, RawHandle::null()), Err(FatalError::NullHandle));
}

#[test]
fn the_classified_variant_wraps_the_classified_handle() {
    let mut unit = IrUnit::new();
    let h = unit.add_value(TypeKind::Double, ValueFlags::none());
    let v = BasicValueEnum::classify(&unit, h).unwrap();
    assert_eq!(v.as_value().handle, h);
}

#[test]
fn the_matching_downcast_succeeds_and_every_other_fails() {
    let mut unit = IrUnit::new();
    let h = unit.add_value(TypeKind::Integer, ValueFlags::none());
    let v = BasicValueEnum::classify(&unit, h).unwrap();
    assert!(v.as_int_value().is_ok());
    assert!(v.into_int_value().is_ok());
    assert_eq!(
        v.as_float_value().unwrap_err(),
        FatalError::DowncastMismatch { expected: VariantTag::Float, actual: VariantTag::Int }
    );
    assert_eq!(
        v.as_pointer_value().unwrap_err(),
        FatalError::DowncastMismatch { expected: VariantTag::Pointer, actual: VariantTag::Int }
    );
    assert_eq!(
        v.as_struct_value().unwrap_err(),
        FatalError::DowncastMismatch { expected: VariantTag::Struct, actual: VariantTag::Int }
    );
    assert_eq!(
        v.as_array_value().unwrap_err(),
        FatalError::DowncastMismatch { expected: VariantTag::Array, actual: VariantTag::Int }
    );
    assert!(v.into_float_value().is_err());
    assert!(v.into_pointer_value().is_err());
    assert!(v.into_struct_value().is_err());
    assert!(v.into_array_value().is_err());
}

#[test]
fn consuming_and_borrowing_downcasts_agree() {
    let mut unit = IrUnit::new();
    let h = unit.add_value(TypeKind::Array, ValueFlags::none());
    let v = BasicValueEnum::classify(&unit, h).unwrap();
    let borrowed = *v.as_array_value().unwrap();
    let consumed = v.into_array_value().unwrap();
    assert_eq!(borrowed, consumed);
}

#[test]
fn broad_classification_consults_the_role_first() {
    let mut unit = IrUnit::new();
    let f = unit.add_function(TypeKind::Integer, &Vec::new());
    let m = unit.add_merge(TypeKind::Integer);
    let p = unit.add_value(TypeKind::Pointer, ValueFlags::none());
    assert!(matches!(AnyValueEnum::classify(&unit, f), Ok(AnyValueEnum::FunctionValue(_))));
    assert!(matches!(AnyValueEnum::classify(&unit, m), Ok(AnyValueEnum::PhiValue(_))));
    assert!(matches!(AnyValueEnum::classify(&unit, p), Ok(AnyValueEnum::PointerValue(_))));
}

#[test]
fn broad_classification_rejects_what_it_cannot_name() {
    let mut unit = IrUnit::new();
    let v = unit.add_value(TypeKind::Vector, ValueFlags::none());
    let w = unit.add_value(TypeKind::Void, ValueFlags::none());
    assert_eq!(AnyValueEnum::classify(&unit, v), Err(FatalError::UnsupportedVectorKind));
    assert_eq!(AnyValueEnum::classify(&unit, w), Err(FatalError::UnrecognizedKind));
    assert_eq!(AnyValueEnum::classify(&unit, RawHandle::null()), Err(FatalError::NullHandle));
}

#[test]
fn broad_downcasts_succeed_exactly_on_the_active_variant() {
    let mut unit = IrUnit::new();
    let f = unit.add_function(TypeKind::Integer, &Vec::new());
    let v = AnyValueEnum::classify(&unit, f).unwrap();
    assert!(v.as_function_value().is_ok());
    assert_eq!(
        v.as_phi_value().unwrap_err(),
        FatalError::DowncastMismatch { expected: VariantTag::Phi, actual: VariantTag::Function }
    );
    assert_eq!(
        v.as_int_value().unwrap_err(),
        FatalError::DowncastMismatch { expected: VariantTag::Int, actual: VariantTag::Function }
    );
    assert!(v.into_function_value().is_ok());
}
