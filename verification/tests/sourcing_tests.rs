use shco::sourcing::{emit_order, resolve_entries};

fn sources(list: &[&str]) -> Vec<String> {
    list.iter().map(|s| s.to_string()).collect()
}

#[test]
fn every_entry_is_resolved_in_place() {
    let entries = resolve_entries(&sources(&["a/one", "nonsense", "c/three"]));
    assert_eq!(entries.len(), 3);
    assert_eq!(entries[0].source, "a/one");
    assert!(entries[0].identity.is_some());
    assert_eq!(entries[1].source, "nonsense");
    assert!(entries[1].identity.is_none());
    assert!(entries[2].identity.is_some());
}

#[test]
fn load_commands_follow_configured_order() {
    let entries = resolve_entries(&sources(&["b/two", "a/one", "c/three"]));
    let installed = vec![true, true, true];
    let plan = emit_order(&entries, &installed);
    let names: Vec<&str> = plan.iter().map(|id| id.name.as_str()).collect();
    // configured order, not alphabetical or any on-disk order
    assert_eq!(names, vec!["two", "one", "three"]);
}

#[test]
fn only_installed_plugins_are_emitted() {
    let entries = resolve_entries(&sources(&["a/one", "b/two", "c/three"]));
    let installed = vec![true, false, true];
    let plan = emit_order(&entries, &installed);
    let names: Vec<&str> = plan.iter().map(|id| id.name.as_str()).collect();
    assert_eq!(names, vec!["one", "three"]);
}

#[test]
fn unresolved_entries_are_never_emitted() {
    let entries = resolve_entries(&sources(&["a/one", "nonsense", "c/three"]));
    let installed = vec![true, true, true];
    let plan = emit_order(&entries, &installed);
    let owners: Vec<&str> = plan.iter().map(|id| id.owner.as_str()).collect();
    assert_eq!(owners, vec!["a", "c"]);
}

#[test]
fn empty_configuration_emits_nothing() {
    let entries = resolve_entries(&sources(&[]));
    let plan = emit_order(&entries, &Vec::new());
    assert!(plan.is_empty());
}
