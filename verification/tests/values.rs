use ir_values::kinds::{FatalError, TypeKind};
use ir_values::types::AnyTypeEnum;
use ir_values::unit::{IrUnit, RawHandle, ValueFlags};
use ir_values::values::{AnyValue, IntoIntValue, Value};

fn plain(unit: &mut IrUnit, kind: TypeKind) -> RawHandle {
    unit.add_value(kind, ValueFlags::none())
}

#[test]
fn null_handle_is_fatal() {
    let unit = IrUnit::new();
    assert_eq!(Value::new(&unit, RawHandle::null()), Err(FatalError::NullHandle));
}

#[test]
fn wrapping_a_valid_handle_succeeds() {
    let mut unit = IrUnit::new();
    let h = plain(&mut unit, TypeKind::Integer);
    let v = Value::new(&unit, h).unwrap();
    assert_eq!(v.handle, h);
}

#[test]
fn set_name_then_get_name_round_trips() {
    let mut unit = IrUnit::new();
    let h = plain(&mut unit, TypeKind::Integer);
    let v = Value::new(&unit, h).unwrap();
    assert_eq!(v.set_name(&mut unit, "foo"), Ok(()));
    assert_eq!(v.get_name(&unit), "foo".to_string());
}

#[test]
fn set_name_twice_keeps_the_last_name() {
    let mut unit = IrUnit::new();
    let h = plain(&mut unit, TypeKind::Pointer);
    let v = Value::new(&unit, h).unwrap();
    assert_eq!(v.set_name(&mut unit, "first"), Ok(()));
    assert_eq!(v.set_name(&mut unit, "second"), Ok(()));
    assert_eq!(v.get_name(&unit), "second".to_string());
}

#[test]
fn name_with_interior_nul_is_fatal_and_leaves_the_name() {
    let mut unit = IrUnit::new();
    let h = plain(&mut unit, TypeKind::Integer);
    let v = Value::new(&unit, h).unwrap();
    assert_eq!(v.set_name(&mut unit, "ok"), Ok(()));
    assert_eq!(v.set_name(&mut unit, "bad\0name"), Err(FatalError::NameHasInteriorNul));
    assert_eq!(v.get_name(&unit), "ok".to_string());
}

#[test]
fn a_shared_handle_sees_the_rename_through_every_wrapper() {
    let mut unit = IrUnit::new();
    let h = plain(&mut unit, TypeKind::Integer);
    let a = Value::new(&unit, h).unwrap();
    let b = Value::new(&unit, h).unwrap();
    assert_eq!(a.set_name(&mut unit, "shared"), Ok(()));
    assert_eq!(b.get_name(&unit), "shared".to_string());
}

#[test]
fn is_undef_reports_the_flag() {
    let mut unit = IrUnit::new();
    let flags = ValueFlags { undef: true, constant: false, null: false, const_array: false, const_data_array: false };
    let h = unit.add_value(TypeKind::Integer, flags);
    let g = plain(&mut unit, TypeKind::Integer);
    assert!(Value::new(&unit, h).unwrap().is_undef(&unit));
    assert!(!Value::new(&unit, g).unwrap().is_undef(&unit));
}

#[test]
fn get_type_classifies_the_kind() {
    let mut unit = IrUnit::new();
    let i = plain(&mut unit, TypeKind::Integer);
    let d = plain(&mut unit, TypeKind::Double);
    let s = plain(&mut unit, TypeKind::Struct);
    assert_eq!(Value::new(&unit, i).unwrap().get_type(&unit), AnyTypeEnum::IntType);
    assert_eq!(Value::new(&unit, d).unwrap().get_type(&unit), AnyTypeEnum::FloatType(TypeKind::Double));
    assert_eq!(Value::new(&unit, s).unwrap().get_type(&unit), AnyTypeEnum::StructType);
}

#[test]
fn set_global_constant_follows_the_foreign_convention() {
    let mut unit = IrUnit::new();
    let h = plain(&mut unit, TypeKind::Integer);
    let v = Value::new(&unit, h).unwrap();
    v.set_global_constant(&mut unit, 1);
    assert!(unit.values[h.raw - 1].flags.constant);
    v.set_global_constant(&mut unit, 0);
    assert!(!unit.values[h.raw - 1].flags.constant);
}

#[test]
fn describe_renders_every_field() {
    let mut unit = IrUnit::new();
    let h = plain(&mut unit, TypeKind::Integer);
    let v = Value::new(&unit, h).unwrap();
    v.set_name(&mut unit, "foo").unwrap();
    assert_eq!(
        v.describe(&unit),
        "Value { name: foo, address: 1, is_const: false, is_const_array: false, \
         is_const_data_array: false, is_null: false, value: integer %foo, type: integer }"
            .to_string()
    );
}

#[test]
fn into_int_value_on_a_wrapper_rewraps_the_same_handle() {
    let mut unit = IrUnit::new();
    let h = plain(&mut unit, TypeKind::Integer);
    let v = ir_values::values::IntValue::new(&unit, h).unwrap();
    let w = v.into_int_value(&mut unit);
    assert_eq!(w.as_value().handle, h);
}

#[test]
fn into_int_value_on_a_number_creates_a_constant() {
    let mut unit = IrUnit::new();
    let before = unit.values.len();
    let w = 42u64.into_int_value(&mut unit);
    assert_eq!(unit.values.len(), before + 1);
    let h = w.as_value().handle;
    assert_eq!(unit.values[h.raw - 1].kind, TypeKind::Integer);
    assert!(unit.values[h.raw - 1].flags.constant);
}
