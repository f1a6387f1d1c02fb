use tester::engine::{pop_slot, push_slot, LoadOptions, SafeR, S, VALUE_STACK_SLOTS};

#[test]
fn push_from_an_empty_stack_writes_slot_zero() {
    assert_eq!(push_slot(u32::MAX), Some(0));
    assert_eq!(push_slot(0), Some(1));
    assert_eq!(push_slot(VALUE_STACK_SLOTS - 2), Some(VALUE_STACK_SLOTS - 1));
    assert_eq!(push_slot(VALUE_STACK_SLOTS - 1), None);
}

#[test]
fn pop_reads_the_top_slot() {
    assert_eq!(pop_slot(0), Some((0, u32::MAX)));
    assert_eq!(pop_slot(5), Some((5, 4)));
    assert_eq!(pop_slot(VALUE_STACK_SLOTS), None);
    assert_eq!(pop_slot(u32::MAX), None);
}

#[test]
fn result_chain_messages() {
    let r = SafeR::ErrNest(
        "call failed".to_string(),
        Box::new(SafeR::Error("multi_return_not_supported".to_string())),
    );
    assert_eq!(r.status(), S::ErrNest);
    assert!(!r.is_ok());
    assert_eq!(r.messages(), vec!["call failed".to_string(), "multi_return_not_supported".to_string()]);
    assert_eq!(SafeR::Success.messages(), Vec::<String>::new());
    assert!(SafeR::Success.is_ok());
    assert_eq!(SafeR::Error("x".to_string()).status(), S::Error);
}

#[test]
fn standard_options_switch_everything_off() {
    let o = LoadOptions::standard();
    assert!(!o.disable_memory_bounds && !o.mangle_table_index && !o.trim_leading_underscore_on_lookup);
}
