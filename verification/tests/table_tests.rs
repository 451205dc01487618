use poll_engine::table::AssocTable;
use poll_engine::table::FieldTable;
use poll_engine::table::FieldValue;
use poll_engine::table::KeyedTable;

fn field_table(pairs: &[(&str, FieldValue)]) -> FieldTable {
    let mut t = AssocTable::new();
    for (k, v) in pairs {
        t.insert((*k).to_string(), clone_value(v));
    }
    t
}

fn clone_value(v: &FieldValue) -> FieldValue {
    match v {
        FieldValue::Unsigned(n) => FieldValue::Unsigned(*n),
        FieldValue::Text(s) => FieldValue::Text(s.clone()),
    }
}

#[test]
fn union_overwrite_merge() {
    // {a:1, b:2} then {b:3, c:4} into an empty category -> {a:1, b:3, c:4}.
    let mut cat: FieldTable = AssocTable::new();
    cat.merge_from(field_table(&[
        ("a", FieldValue::Unsigned(1)),
        ("b", FieldValue::Unsigned(2)),
    ]));
    cat.merge_from(field_table(&[
        ("b", FieldValue::Unsigned(3)),
        ("c", FieldValue::Unsigned(4)),
    ]));
    assert_eq!(cat.get("a"), Some(&FieldValue::Unsigned(1)));
    assert_eq!(cat.get("b"), Some(&FieldValue::Unsigned(3)));
    assert_eq!(cat.get("c"), Some(&FieldValue::Unsigned(4)));
    assert_eq!(cat.entry_count(), 3);
}

#[test]
fn table_merging_an_empty_fragment_changes_nothing() {
    let mut cat = field_table(&[
        ("up", FieldValue::Unsigned(10)),
        ("kind", FieldValue::Text("ftth".to_string())),
    ]);
    cat.merge_from(AssocTable::new());
    assert_eq!(cat.entry_count(), 2);
    assert_eq!(cat.get("up"), Some(&FieldValue::Unsigned(10)));
    assert_eq!(cat.get("kind"), Some(&FieldValue::Text("ftth".to_string())));
}

#[test]
fn keyed_partition_keeps_both_fragments() {
    // Fragments stored under "24" and "5" coexist, each unmodified.
    let mut cat: KeyedTable = AssocTable::new();
    cat.insert(
        "24".to_string(),
        field_table(&[("ssid", FieldValue::Text("home".to_string()))]),
    );
    cat.insert(
        "5".to_string(),
        field_table(&[("ssid", FieldValue::Text("home5".to_string()))]),
    );
    assert_eq!(cat.entry_count(), 2);
    let low = cat.get("24").expect("low band present");
    let high = cat.get("5").expect("high band present");
    assert_eq!(low.get("ssid"), Some(&FieldValue::Text("home".to_string())));
    assert_eq!(high.get("ssid"), Some(&FieldValue::Text("home5".to_string())));
}

#[test]
fn insert_replaces_an_existing_key() {
    let mut t: FieldTable = AssocTable::new();
    t.insert("x".to_string(), FieldValue::Unsigned(1));
    t.insert("x".to_string(), FieldValue::Unsigned(2));
    assert_eq!(t.entry_count(), 1);
    assert_eq!(t.get("x"), Some(&FieldValue::Unsigned(2)));
}

#[test]
fn get_of_an_absent_key_is_none() {
    let t = field_table(&[("a", FieldValue::Unsigned(1))]);
    assert_eq!(t.get("b"), None);
    let empty: FieldTable = AssocTable::new();
    assert_eq!(empty.get("a"), None);
    assert_eq!(empty.entry_count(), 0);
}
