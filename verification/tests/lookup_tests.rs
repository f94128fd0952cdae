use cargo_pack::lookup::{lookup, parse_index};
use cargo_pack::ValueTree;

fn s(x: &str) -> String {
    x.to_string()
}

fn sample_table() -> ValueTree {
    ValueTree::Table(vec![
        (s("a"), ValueTree::Int(1)),
        (s("b"), ValueTree::Str(s("two"))),
    ])
}

#[test]
fn empty_path_is_identity() {
    let path: Vec<String> = vec![];
    let r = lookup(sample_table(), &path);
    assert_eq!(r, Some(sample_table()));
}

#[test]
fn empty_path_on_scalar_is_identity() {
    let path: Vec<String> = vec![];
    let r = lookup(ValueTree::Bool(true), &path);
    assert_eq!(r, Some(ValueTree::Bool(true)));
}

#[test]
fn missing_table_key_is_absent_for_any_deeper_path() {
    let path = vec![s("missing"), s("deeper"), s("still")];
    let r = lookup(sample_table(), &path);
    assert_eq!(r, None);
}

#[test]
fn table_key_selects_entry() {
    let r = lookup(sample_table(), &vec![s("b")]);
    assert_eq!(r, Some(ValueTree::Str(s("two"))));
}

fn sample_array() -> ValueTree {
    ValueTree::Array(vec![
        ValueTree::Int(10),
        ValueTree::Int(20),
        ValueTree::Int(30),
    ])
}

#[test]
fn array_index_in_bounds_selects_element() {
    assert_eq!(lookup(sample_array(), &vec![s("0")]), Some(ValueTree::Int(10)));
    assert_eq!(lookup(sample_array(), &vec![s("2")]), Some(ValueTree::Int(30)));
}

#[test]
fn array_index_out_of_bounds_is_absent() {
    assert_eq!(lookup(sample_array(), &vec![s("3")]), None);
    assert_eq!(lookup(sample_array(), &vec![s("100")]), None);
}

#[test]
fn non_numeric_array_segment_is_absent() {
    assert_eq!(lookup(sample_array(), &vec![s("x")]), None);
    assert_eq!(lookup(sample_array(), &vec![s("-1")]), None);
    assert_eq!(lookup(sample_array(), &vec![s("")]), None);
}

#[test]
fn numeric_segment_on_table_is_a_key() {
    let t = ValueTree::Table(vec![(s("0"), ValueTree::Int(5))]);
    assert_eq!(lookup(t, &vec![s("0")]), Some(ValueTree::Int(5)));
    let t2 = ValueTree::Table(vec![(s("k"), ValueTree::Int(5))]);
    assert_eq!(lookup(t2, &vec![s("0")]), None);
}

#[test]
fn scalar_with_remaining_segments_is_absent() {
    assert_eq!(lookup(ValueTree::Int(7), &vec![s("a")]), None);
    assert_eq!(lookup(ValueTree::Str(s("v")), &vec![s("0")]), None);
    assert_eq!(lookup(ValueTree::Float(s("1.5")), &vec![s("a")]), None);
    assert_eq!(lookup(ValueTree::Datetime(s("2020-01-01")), &vec![s("a")]), None);
}

#[test]
fn nested_path_through_tables_and_arrays() {
    let tree = ValueTree::Table(vec![(
        s("a"),
        ValueTree::Array(vec![ValueTree::Table(vec![(s("b"), ValueTree::Str(s("x")))])]),
    )]);
    let r = lookup(tree, &vec![s("a"), s("0"), s("b")]);
    assert_eq!(r, Some(ValueTree::Str(s("x"))));
}

#[test]
fn duplicate_table_keys_first_entry_wins() {
    let t = ValueTree::Table(vec![
        (s("k"), ValueTree::Int(1)),
        (s("k"), ValueTree::Int(2)),
    ]);
    assert_eq!(lookup(t, &vec![s("k")]), Some(ValueTree::Int(1)));
}

#[test]
fn parse_index_accepts_plain_decimal_digits() {
    assert_eq!(parse_index("0"), Some(0));
    assert_eq!(parse_index("7"), Some(7));
    assert_eq!(parse_index("123"), Some(123));
    assert_eq!(parse_index("007"), Some(7));
}

#[test]
fn parse_index_rejects_everything_else() {
    assert_eq!(parse_index(""), None);
    assert_eq!(parse_index("a"), None);
    assert_eq!(parse_index("1a"), None);
    assert_eq!(parse_index("a1"), None);
    assert_eq!(parse_index("-1"), None);
    assert_eq!(parse_index("+1"), None);
    assert_eq!(parse_index("1 "), None);
    assert_eq!(parse_index("99999999999999999999999999999"), None);
}
