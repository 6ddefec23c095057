use toml_cfg::overrides::load;
use toml_cfg::value::RawValue;

#[test]
fn load_extracts_component_subtable() {
    let contents =
        "[lib-one]\nbuffer_size = 4096\n\n[lib-two]\ngreeting = \"Guten tag!\"\n".to_string();
    let one = load(Some(&contents), &"lib-one".to_string()).unwrap();
    assert_eq!(one.entries.len(), 1);
    assert_eq!(one.entries[0].0, "buffer_size");
    assert_eq!(one.entries[0].1, RawValue::Int(4096));
    let two = load(Some(&contents), &"lib-two".to_string()).unwrap();
    assert_eq!(two.entries[0].1, RawValue::Str("Guten tag!".to_string()));
}

#[test]
fn load_get_finds_field_by_name() {
    let contents = "[compA]\nbuffer_size = 4096\nenabled = true\n".to_string();
    let sub = load(Some(&contents), &"compA".to_string()).unwrap();
    assert_eq!(sub.get(&"buffer_size".to_string()), Some(&RawValue::Int(4096)));
    assert_eq!(sub.get(&"enabled".to_string()), Some(&RawValue::Bool(true)));
    assert_eq!(sub.get(&"absent".to_string()), None);
}

#[test]
fn load_nothing_without_contents() {
    assert!(load(None, &"compA".to_string()).is_none());
}

#[test]
fn load_nothing_from_malformed_text() {
    let contents = "][ not a document".to_string();
    assert!(load(Some(&contents), &"compA".to_string()).is_none());
}

#[test]
fn load_nothing_when_component_absent() {
    let contents = "[compB]\nx = 1\n".to_string();
    assert!(load(Some(&contents), &"compA".to_string()).is_none());
}

#[test]
fn load_empty_subtable_is_present_not_absent() {
    let contents = "[compA]\n".to_string();
    let sub = load(Some(&contents), &"compA".to_string()).unwrap();
    assert_eq!(sub.entries.len(), 0);
}

#[test]
fn load_nothing_when_top_level_value_is_not_a_table() {
    let contents = "x = 1\n[compA]\nbuffer_size = 2\n".to_string();
    assert!(load(Some(&contents), &"compA".to_string()).is_none());
}

#[test]
fn load_nothing_on_duplicate_component_tables() {
    let contents = "[compA]\nx = 1\n[compA]\ny = 2\n".to_string();
    assert!(load(Some(&contents), &"compA".to_string()).is_none());
}

#[test]
fn load_carries_unusual_literals_as_text() {
    let contents = "[compA]\nratio = 1.5\n".to_string();
    let sub = load(Some(&contents), &"compA".to_string()).unwrap();
    match sub.get(&"ratio".to_string()) {
        Some(RawValue::Other(text)) => assert_eq!(text, "1.5"),
        other => panic!("expected a textual literal, got {:?}", other),
    }
}
