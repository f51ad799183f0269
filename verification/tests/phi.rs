use ir_values::blocks::BasicBlock;
use ir_values::kinds::{FatalError, TypeKind};
use ir_values::unit::{IrUnit, ValueFlags};
use ir_values::values::{AnyValue, PhiValue, Value};

#[test]
fn one_registered_edge_is_observable_as_a_predecessor() {
    let mut unit = IrUnit::new();
    let f = unit.add_function(TypeKind::Integer, &Vec::new());
    let b = unit.add_block(f, true);
    let m = unit.add_merge(TypeKind::Integer);
    let phi = PhiValue::new(&unit, m).unwrap();
    let vh = unit.add_value(TypeKind::Integer, ValueFlags::none());
    let incoming = Value::new(&unit, vh).unwrap();
    let block = BasicBlock::new(&unit, b);

    assert_eq!(phi.count_incoming(&unit), 0);
    assert_eq!(phi.add_incoming(&mut unit, &incoming, &block, 1), Ok(()));
    assert_eq!(phi.count_incoming(&unit), 1);
    let edge = phi.get_incoming(&unit, 0).unwrap();
    assert_eq!(edge.value, incoming.handle);
    assert_eq!(edge.block, b);
    assert!(phi.get_incoming(&unit, 1).is_none());
}

#[test]
fn a_count_other_than_one_is_fatal_and_registers_nothing() {
    let mut unit = IrUnit::new();
    let f = unit.add_function(TypeKind::Integer, &Vec::new());
    let b = unit.add_block(f, true);
    let m = unit.add_merge(TypeKind::Integer);
    let phi = PhiValue::new(&unit, m).unwrap();
    let vh = unit.add_value(TypeKind::Integer, ValueFlags::none());
    let incoming = Value::new(&unit, vh).unwrap();
    let block = BasicBlock::new(&unit, b);

    assert_eq!(phi.add_incoming(&mut unit, &incoming, &block, 0), Err(FatalError::IncomingCountMismatch));
    assert_eq!(phi.add_incoming(&mut unit, &incoming, &block, 2), Err(FatalError::IncomingCountMismatch));
    assert_eq!(phi.count_incoming(&unit), 0);
}

#[test]
fn edges_accumulate_in_registration_order() {
    let mut unit = IrUnit::new();
    let f = unit.add_function(TypeKind::Integer, &Vec::new());
    let b0 = unit.add_block(f, true);
    let b1 = unit.add_block(f, true);
    let m = unit.add_merge(TypeKind::Integer);
    let phi = PhiValue::new(&unit, m).unwrap();
    let h0 = unit.add_value(TypeKind::Integer, ValueFlags::none());
    let h1 = unit.add_value(TypeKind::Pointer, ValueFlags::none());
    let first = Value::new(&unit, h0).unwrap();
    let second = Value::new(&unit, h1).unwrap();
    let block0 = BasicBlock::new(&unit, b0);
    let block1 = BasicBlock::new(&unit, b1);
    assert_eq!(phi.add_incoming(&mut unit, &first, &block0, 1), Ok(()));
    assert_eq!(phi.add_incoming(&mut unit, &second, &block1, 1), Ok(()));
    assert_eq!(phi.count_incoming(&unit), 2);
    assert_eq!(phi.get_incoming(&unit, 0).unwrap().value, h0);
    assert_eq!(phi.get_incoming(&unit, 1).unwrap().value, h1);
    assert_eq!(phi.get_incoming(&unit, 1).unwrap().block, b1);
}

#[test]
fn a_phi_accepts_any_wrapper_as_the_incoming_value() {
    let mut unit = IrUnit::new();
    let f = unit.add_function(TypeKind::Integer, &Vec::new());
    let b = unit.add_block(f, true);
    let m = unit.add_merge(TypeKind::Integer);
    let phi = PhiValue::new(&unit, m).unwrap();
    let h = unit.add_value(TypeKind::Integer, ValueFlags::none());
    let wrapper = ir_values::values::IntValue::new(&unit, h).unwrap();
    let block = BasicBlock::new(&unit, b);
    assert_eq!(phi.add_incoming(&mut unit, &wrapper, &block, 1), Ok(()));
    assert_eq!(phi.get_incoming(&unit, 0).unwrap().value, wrapper.as_value().handle);
}

#[test]
fn phi_names_go_through_the_shared_core() {
    let mut unit = IrUnit::new();
    let m = unit.add_merge(TypeKind::Integer);
    let phi = PhiValue::new(&unit, m).unwrap();
    let core = Value::new(&unit, m).unwrap();
    core.set_name(&mut unit, "join").unwrap();
    assert_eq!(phi.get_name(&unit), "join".to_string());
}
