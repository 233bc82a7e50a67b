use unitycatalog_common::{resource_name, ResourceName, ResourceRef};

fn name_of(parts: &[&str]) -> ResourceName {
    ResourceName::new(parts.iter().map(|p| p.to_string()).collect())
}

#[test]
fn test_column_name_macros() {
    assert_eq!(resource_name("a"), name_of(&["a"]));
    assert_eq!(resource_name("a.b"), name_of(&["a", "b"]));
    assert_eq!(resource_name("a.b.c"), name_of(&["a", "b", "c"]));
}

#[test]
fn naive_split_keeps_empty_segments() {
    let n = ResourceName::from_naive_str_split("a..b.");
    assert_eq!(n.path(), &["a".to_string(), String::new(), "b".to_string(), String::new()]);
    let e = ResourceName::from_naive_str_split("");
    assert_eq!(e.path(), &[String::new()]);
}

#[test]
fn simple_names_display_plain() {
    assert_eq!(name_of(&["cat", "sch", "tbl"]).to_string(), "cat.sch.tbl");
    assert_eq!(name_of(&["a_1"]).to_string(), "a_1");
}

#[test]
fn special_segments_are_quoted() {
    assert_eq!(name_of(&["a", "b.c", "d"]).to_string(), "a.`b.c`.d");
    assert_eq!(name_of(&[""]).to_string(), "``");
    assert_eq!(name_of(&["0x"]).to_string(), "`0x`");
    assert_eq!(name_of(&["x`y"]).to_string(), "`x``y`");
    assert_eq!(name_of(&["a b"]).to_string(), "`a b`");
}

#[test]
fn empty_name_displays_empty() {
    assert_eq!(ResourceName::new(vec![]).to_string(), "");
}

#[test]
fn plain_dotted_name_round_trips_through_display() {
    let n = resource_name("main.default.events");
    assert_eq!(n.to_string(), "main.default.events");
    assert_eq!(resource_name(&n.to_string()), n);
}

#[test]
fn refs_display() {
    let u: u128 = 0x123e4567_e89b_12d3_a456_426614174000;
    assert_eq!(ResourceRef::from(u).to_string(), "123e4567-e89b-12d3-a456-426614174000");
    assert_eq!(ResourceRef::Uuid(0).to_string(), "00000000-0000-0000-0000-000000000000");
    assert_eq!(ResourceRef::from(name_of(&["a", "b"])).to_string(), "a.b");
    assert_eq!(ResourceRef::name(name_of(&["a.b"])).to_string(), "`a.b`");
    assert_eq!(ResourceRef::Undefined.to_string(), "*");
}

#[test]
fn undefined_is_the_wildcard() {
    assert!(ResourceRef::Undefined.is_undefined());
    assert!(!ResourceRef::Uuid(7).is_undefined());
    assert!(!ResourceRef::name(name_of(&["x"])).is_undefined());
}
