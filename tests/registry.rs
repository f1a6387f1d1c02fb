use tester::engine::ModuleHandle;
use tester::error::HarnessError;
use tester::registry::ModuleRegistry;

fn h(id: u64) -> ModuleHandle {
    ModuleHandle { id }
}

#[test]
fn named_module_is_resolved_by_name() {
    let mut r = ModuleRegistry::new();
    r.register(&None, h(1));
    r.register(&Some("B".to_string()), h(2));
    assert_eq!(r.resolve(&Some("B".to_string())), Ok(h(2)));
    assert_eq!(r.resolve(&None), Ok(h(1)));
}

#[test]
fn unknown_name_is_an_error() {
    let mut r = ModuleRegistry::new();
    r.register(&None, h(1));
    assert_eq!(
        r.resolve(&Some("C".to_string())),
        Err(HarnessError::UnknownModule { name: "C".to_string() })
    );
}

#[test]
fn empty_registry_has_no_current_module() {
    let r = ModuleRegistry::new();
    assert_eq!(r.resolve(&None), Err(HarnessError::NoCurrentModule));
}

#[test]
fn later_registrations_replace_earlier_ones() {
    let mut r = ModuleRegistry::new();
    r.register(&None, h(1));
    r.register(&None, h(2));
    r.register(&Some("M".to_string()), h(3));
    r.register(&Some("N".to_string()), h(4));
    r.register(&Some("M".to_string()), h(5));
    assert_eq!(r.resolve(&None), Ok(h(2)));
    assert_eq!(r.resolve(&Some("M".to_string())), Ok(h(5)));
    assert_eq!(r.resolve(&Some("N".to_string())), Ok(h(4)));
}
