use ns_r::params::ParamTable;
use ns_r::scalar::Scalar;

fn s(x: f64) -> Scalar {
    Scalar::from_bits(x.to_bits())
}

#[test]
fn an_empty_table_holds_nothing() {
    let table = ParamTable::new();
    assert_eq!(table.get("v0"), None);
    assert!(!table.contains_key("v0"));
    assert!(table.names().is_empty());
}

#[test]
fn a_value_is_found_under_its_name() {
    let mut table = ParamTable::new();
    assert_eq!(table.insert("v0".to_string(), s(1.0)), None);
    assert_eq!(table.insert("power".to_string(), s(2.0)), None);
    assert_eq!(table.get("v0"), Some(s(1.0)));
    assert_eq!(table.get("power"), Some(s(2.0)));
    assert_eq!(table.get("f"), None);
    assert!(table.contains_key("power"));
    assert!(!table.contains_key("Power"));
}

#[test]
fn a_second_insert_replaces_the_value_and_returns_the_old_one() {
    let mut table = ParamTable::new();
    table.insert("v0".to_string(), s(1.0));
    table.insert("power".to_string(), s(2.0));
    assert_eq!(table.insert("v0".to_string(), s(3.5)), Some(s(1.0)));
    assert_eq!(table.get("v0"), Some(s(3.5)));
    assert_eq!(table.get("power"), Some(s(2.0)));
    assert_eq!(table.names().len(), 2);
}

#[test]
fn names_lists_each_name_once() {
    let mut table = ParamTable::new();
    table.insert("v0".to_string(), s(1.0));
    table.insert("f".to_string(), s(7.0));
    table.insert("v0".to_string(), s(2.0));
    table.insert("power".to_string(), s(4.0));
    let mut names = table.names();
    names.sort();
    assert_eq!(names, vec!["f".to_string(), "power".to_string(), "v0".to_string()]);
}

#[test]
fn a_duplicate_holds_the_same_entries_and_is_independent() {
    let mut table = ParamTable::new();
    table.insert("v0".to_string(), s(1.0));
    table.insert("f".to_string(), s(7.0));
    let mut copy = table.duplicate();
    assert_eq!(copy.get("v0"), Some(s(1.0)));
    assert_eq!(copy.get("f"), Some(s(7.0)));
    assert_eq!(copy.names().len(), 2);
    copy.insert("v0".to_string(), s(9.0));
    copy.insert("power".to_string(), s(2.0));
    assert_eq!(table.get("v0"), Some(s(1.0)));
    assert_eq!(table.get("power"), None);
    assert_eq!(copy.get("v0"), Some(s(9.0)));
}

#[test]
fn names_are_compared_as_whole_strings() {
    let mut table = ParamTable::new();
    table.insert("f".to_string(), s(1.0));
    table.insert("ff".to_string(), s(2.0));
    table.insert("".to_string(), s(3.0));
    assert_eq!(table.get("f"), Some(s(1.0)));
    assert_eq!(table.get("ff"), Some(s(2.0)));
    assert_eq!(table.get(""), Some(s(3.0)));
    assert_eq!(table.get("fff"), None);
}
