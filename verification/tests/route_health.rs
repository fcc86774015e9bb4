use app_lib::route_health::probe_scope;

#[test]
fn probe_scope_does_not_depend_on_authority_order() {
    let mut first = vec!["b.example".to_string(), "a.example".to_string(), "b.example".to_string()];
    let mut second = vec!["a.example".to_string(), "b.example".to_string(), "b.example".to_string()];
    let scope_first = probe_scope("maven", &mut first);
    let scope_second = probe_scope("maven", &mut second);
    assert_eq!(first, vec!["a.example", "b.example", "b.example"]);
    assert_eq!(first, second);
    assert_eq!(scope_first, scope_second);
    let mut other = second.clone();
    assert_ne!(probe_scope("assets", &mut other), scope_first);
}
