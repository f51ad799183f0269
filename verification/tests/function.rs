use ir_values::function::FunctionValue;
use ir_values::kinds::{FatalError, TypeKind};
use ir_values::types::BasicTypeEnum;
use ir_values::unit::{IrUnit, RawHandle, ValueFlags};

#[test]
fn construction_checks_the_function_predicate() {
    let mut unit = IrUnit::new();
    let not_a_function = unit.add_value(TypeKind::Integer, ValueFlags::none());
    let f = unit.add_function(TypeKind::Integer, &Vec::new());
    assert_eq!(FunctionValue::new(&unit, RawHandle::null()), Err(FatalError::NullHandle));
    assert_eq!(FunctionValue::new(&unit, not_a_function), Err(FatalError::NotAFunction));
    assert!(FunctionValue::new(&unit, f).is_ok());
}

#[test]
fn verify_passes_a_structurally_valid_function() {
    let mut unit = IrUnit::new();
    let h = unit.add_function(TypeKind::Integer, &Vec::new());
    let f = FunctionValue::new(&unit, h).unwrap();
    unit.add_block(h, true);
    unit.add_block(h, true);
    assert_eq!(f.verify(&unit, false), Ok(()));
    assert_eq!(f.verify(&unit, true), Ok(()));
}

#[test]
fn verify_fails_on_a_terminator_less_block() {
    let mut unit = IrUnit::new();
    let h = unit.add_function(TypeKind::Integer, &Vec::new());
    let f = FunctionValue::new(&unit, h).unwrap();
    unit.add_block(h, true);
    unit.add_block(h, false);
    assert_eq!(f.verify(&unit, false), Err(FatalError::InvalidFunction));
}

#[test]
fn block_accessors_follow_declaration_order() {
    let mut unit = IrUnit::new();
    let h = unit.add_function(TypeKind::Integer, &Vec::new());
    let f = FunctionValue::new(&unit, h).unwrap();
    assert!(f.get_first_basic_block(&unit).is_none());
    assert_eq!(f.get_basic_blocks(&unit).len(), 0);
    let b0 = unit.add_block(h, true);
    let b1 = unit.add_block(h, true);
    assert_eq!(f.get_first_basic_block(&unit).unwrap().basic_block, b0);
    assert_eq!(f.get_last_basic_block(&unit).basic_block, b1);
    let all = f.get_basic_blocks(&unit);
    assert_eq!(all.len(), 2);
    assert_eq!(all[0].basic_block, b0);
    assert_eq!(all[1].basic_block, b1);
    assert!(all[0].is_terminated(&unit));
}

#[test]
fn get_return_type_classifies_the_declared_kind() {
    let mut unit = IrUnit::new();
    let i = unit.add_function(TypeKind::Integer, &Vec::new());
    let d = unit.add_function(TypeKind::Double, &Vec::new());
    let p = unit.add_function(TypeKind::Pointer, &Vec::new());
    assert_eq!(FunctionValue::new(&unit, i).unwrap().get_return_type(&unit), BasicTypeEnum::IntType);
    assert_eq!(
        FunctionValue::new(&unit, d).unwrap().get_return_type(&unit),
        BasicTypeEnum::FloatType(TypeKind::Double)
    );
    assert_eq!(
        FunctionValue::new(&unit, p).unwrap().get_return_type(&unit),
        BasicTypeEnum::PointerType
    );
}

#[test]
fn function_names_round_trip_through_the_core() {
    let mut unit = IrUnit::new();
    let h = unit.add_function(TypeKind::Integer, &Vec::new());
    let f = FunctionValue::new(&unit, h).unwrap();
    assert_eq!(f.get_name(&unit), String::new());
    let core = ir_values::values::Value::new(&unit, h).unwrap();
    core.set_name(&mut unit, "main_entry").unwrap();
    assert_eq!(f.get_name(&unit), "main_entry".to_string());
}

#[test]
fn function_describe_renders_every_field() {
    let mut unit = IrUnit::new();
    let h = unit.add_function(TypeKind::Integer, &Vec::new());
    let f = FunctionValue::new(&unit, h).unwrap();
    let core = ir_values::values::Value::new(&unit, h).unwrap();
    core.set_name(&mut unit, "f").unwrap();
    assert_eq!(
        f.describe(&unit),
        format!(
            "FunctionValue {{ name: f, address: {}, is_const: false, is_null: false, \
             value: function %f, type: function }}",
            h.raw
        )
    );
}

#[test]
fn addresses_render_in_decimal() {
    let mut unit = IrUnit::new();
    for _ in 0..11 {
        unit.add_value(TypeKind::Integer, ValueFlags::none());
    }
    let h = unit.add_value(TypeKind::Integer, ValueFlags::none());
    assert_eq!(h.raw, 12);
    let v = ir_values::values::Value::new(&unit, h).unwrap();
    let text = v.describe(&unit);
    assert!(text.contains("address: 12,"));
    assert_eq!(ir_values::render::dec_string(907), "907".to_string());
    assert_eq!(ir_values::render::dec_string(0), "0".to_string());
    assert_eq!(ir_values::render::dec_string(10), "10".to_string());
}
