use ir_values::enums::BasicValueEnum;
use ir_values::function::FunctionValue;
use ir_values::kinds::TypeKind;
use ir_values::unit::IrUnit;

fn function_with(unit: &mut IrUnit, kinds: &[TypeKind]) -> FunctionValue {
    let param_kinds: Vec<TypeKind> = kinds.to_vec();
    let h = unit.add_function(TypeKind::Integer, &param_kinds);
    FunctionValue::new(unit, h).unwrap()
}

#[test]
fn a_function_with_zero_parameters_has_none_to_give() {
    let mut unit = IrUnit::new();
    let f = function_with(&mut unit, &[]);
    assert_eq!(f.count_params(&unit), 0);
    assert!(f.get_first_param(&unit).is_none());
    let mut it = f.params();
    assert!(it.next(&unit).is_none());
    assert!(it.next(&unit).is_none());
}

#[test]
fn three_parameters_come_out_in_declaration_order_with_matching_variants() {
    let mut unit = IrUnit::new();
    let f = function_with(&mut unit, &[TypeKind::Integer, TypeKind::Pointer, TypeKind::Struct]);
    let mut it = f.params();
    assert!(matches!(it.next(&unit), Some(BasicValueEnum::IntValue(_))));
    assert!(matches!(it.next(&unit), Some(BasicValueEnum::PointerValue(_))));
    assert!(matches!(it.next(&unit), Some(BasicValueEnum::StructValue(_))));
    assert!(it.next(&unit).is_none());
    assert!(matches!(f.get_nth_param(&unit, 1), Some(BasicValueEnum::PointerValue(_))));
    assert!(f.get_nth_param(&unit, 3).is_none());
}

#[test]
fn count_params_equals_the_length_of_the_iterated_sequence() {
    let mut unit = IrUnit::new();
    let f = function_with(
        &mut unit,
        &[TypeKind::Double, TypeKind::Integer, TypeKind::Array, TypeKind::Half],
    );
    let mut it = f.params();
    let mut n: u32 = 0;
    while it.next(&unit).is_some() {
        n += 1;
    }
    assert_eq!(n, f.count_params(&unit));
    assert_eq!(n, 4);
}

#[test]
fn nth_param_is_some_exactly_below_the_count_and_indexes_the_sequence() {
    let mut unit = IrUnit::new();
    let f = function_with(&mut unit, &[TypeKind::Float, TypeKind::Pointer]);
    let mut it = f.params();
    let by_iteration = [it.next(&unit), it.next(&unit)];
    assert_eq!(f.get_nth_param(&unit, 0), by_iteration[0]);
    assert_eq!(f.get_nth_param(&unit, 1), by_iteration[1]);
    assert!(f.get_nth_param(&unit, 2).is_none());
    assert!(f.get_nth_param(&unit, u32::MAX).is_none());
}

#[test]
fn first_param_agrees_with_the_first_iteration_step() {
    let mut unit = IrUnit::new();
    let f = function_with(&mut unit, &[TypeKind::Struct, TypeKind::Integer]);
    let first = f.get_first_param(&unit);
    assert!(first.is_some());
    let mut it = f.params();
    assert_eq!(first, it.next(&unit));

    let empty = function_with(&mut unit, &[]);
    assert_eq!(empty.get_first_param(&unit), empty.params().next(&unit));
}

#[test]
fn the_iterator_end_is_permanent() {
    let mut unit = IrUnit::new();
    let f = function_with(&mut unit, &[TypeKind::Integer]);
    let mut it = f.params();
    assert!(it.next(&unit).is_some());
    assert!(it.next(&unit).is_none());
    assert!(it.next(&unit).is_none());
}

#[test]
fn parameters_retrieved_twice_share_the_underlying_value() {
    let mut unit = IrUnit::new();
    let f = function_with(&mut unit, &[TypeKind::Integer]);
    let once = f.get_nth_param(&unit, 0).unwrap();
    let twice = f.get_first_param(&unit).unwrap();
    assert_eq!(once, twice);
    let w = match once {
        BasicValueEnum::IntValue(v) => v,
        _ => panic!("expected the integer variant"),
    };
    w.set_name(&mut unit, "arg0").unwrap();
    let again = match f.get_first_param(&unit).unwrap() {
        BasicValueEnum::IntValue(v) => v,
        _ => panic!("expected the integer variant"),
    };
    assert_eq!(again.get_name(&unit), "arg0".to_string());
}
