//! Run-time behaviour of the enumeration capability on concrete records.

use struct_iterable::erased::{FieldEntry, FieldValue};
use struct_iterable::iterable::{store_then_read, Iterable};
use struct_iterable::records::{Mixed, Point, Wrapper};

#[test]
fn point_enumeration_in_declaration_order() {
    let p = Point { x: 3, y: 4 };
    let entries = p.iter();
    assert_eq!(entries.len(), 2);
    assert_eq!(entries[0].name, "x");
    assert_eq!(entries[1].name, "y");
    assert_eq!(entries[0].value.try_cast_i32(), Some(3));
    assert_eq!(entries[1].value.try_cast_i32(), Some(4));
}

#[test]
fn point_increment_through_mutable_enumeration() {
    let mut p = Point { x: 3, y: 4 };
    let entries = p.iter();
    let x = entries[0].value.try_cast_i32().unwrap();
    let y = entries[1].value.try_cast_i32().unwrap();
    let updated = vec![
        FieldEntry { name: "x".to_string(), value: FieldValue::I32(x + 1) },
        FieldEntry { name: "y".to_string(), value: FieldValue::I32(y) },
    ];
    assert!(p.iter_mut(updated));
    assert_eq!(p.x, 4);
    assert_eq!(p.y, 4);
}

#[test]
fn wrapper_yields_exactly_one_entry() {
    let w = Wrapper { value: "hi".to_string() };
    let entries = w.iter();
    assert_eq!(entries.len(), 1);
    assert_eq!(entries[0].name, "value");
    assert_eq!(entries[0].value.try_cast_text(), Some(&"hi".to_string()));
}

#[test]
fn wrapper_mutation_is_observed_by_enumeration() {
    let mut w = Wrapper { value: "hi".to_string() };
    let stored = vec![FieldEntry {
        name: "value".to_string(),
        value: FieldValue::Text("there".to_string()),
    }];
    assert!(w.iter_mut(stored));
    assert_eq!(w.value, "there");
    let entries = w.iter();
    assert_eq!(entries[0].value.try_cast_text(), Some(&"there".to_string()));
}

#[test]
fn mixed_order_is_stable_across_calls() {
    let m = Mixed { a: 1, b: true, c: "s".to_string() };
    let first = m.iter();
    let second = m.iter();
    let first_names: Vec<&str> = first.iter().map(|e| e.name.as_str()).collect();
    let second_names: Vec<&str> = second.iter().map(|e| e.name.as_str()).collect();
    assert_eq!(first_names, vec!["a", "b", "c"]);
    assert_eq!(second_names, vec!["a", "b", "c"]);
}

#[test]
fn mixed_store_then_read_round_trips() {
    let mut m = Mixed { a: 1, b: true, c: "s".to_string() };
    let stored = vec![
        FieldEntry { name: "a".to_string(), value: FieldValue::I32(7) },
        FieldEntry { name: "b".to_string(), value: FieldValue::Bool(false) },
        FieldEntry { name: "c".to_string(), value: FieldValue::Text("t".to_string()) },
    ];
    let read = store_then_read(&mut m, stored).expect("matching shape must store");
    assert_eq!(m.a, 7);
    assert!(!m.b);
    assert_eq!(m.c, "t");
    assert_eq!(read[0].value.try_cast_i32(), Some(7));
    assert_eq!(read[1].value.try_cast_bool(), Some(false));
    assert_eq!(read[2].value.try_cast_text(), Some(&"t".to_string()));
}

#[test]
fn store_rejects_wrong_name() {
    let mut p = Point { x: 1, y: 2 };
    let stored = vec![
        FieldEntry { name: "x".to_string(), value: FieldValue::I32(9) },
        FieldEntry { name: "z".to_string(), value: FieldValue::I32(9) },
    ];
    assert!(!p.iter_mut(stored));
    assert_eq!(p.x, 1);
    assert_eq!(p.y, 2);
}

#[test]
fn store_rejects_wrong_type() {
    let mut p = Point { x: 1, y: 2 };
    let stored = vec![
        FieldEntry { name: "x".to_string(), value: FieldValue::I32(9) },
        FieldEntry { name: "y".to_string(), value: FieldValue::I64(9) },
    ];
    assert!(!p.iter_mut(stored));
    assert_eq!(p.x, 1);
    assert_eq!(p.y, 2);
}

#[test]
fn store_rejects_wrong_length() {
    let mut w = Wrapper { value: "hi".to_string() };
    assert!(!w.iter_mut(vec![]));
    let stored = vec![
        FieldEntry { name: "value".to_string(), value: FieldValue::Text("a".to_string()) },
        FieldEntry { name: "value".to_string(), value: FieldValue::Text("b".to_string()) },
    ];
    assert!(!w.iter_mut(stored));
    assert_eq!(w.value, "hi");
}

#[test]
fn try_cast_succeeds_only_on_the_true_type() {
    let i = FieldValue::I32(5);
    assert_eq!(i.try_cast_i32(), Some(5));
    assert_eq!(i.try_cast_i64(), None);
    assert_eq!(i.try_cast_bool(), None);
    assert!(i.try_cast_text().is_none());

    let l = FieldValue::I64(6);
    assert_eq!(l.try_cast_i64(), Some(6));
    assert_eq!(l.try_cast_i32(), None);
    assert_eq!(l.try_cast_bool(), None);
    assert!(l.try_cast_text().is_none());

    let b = FieldValue::Bool(true);
    assert_eq!(b.try_cast_bool(), Some(true));
    assert_eq!(b.try_cast_i32(), None);
    assert_eq!(b.try_cast_i64(), None);
    assert!(b.try_cast_text().is_none());

    let t = FieldValue::Text("v".to_string());
    assert_eq!(t.try_cast_text(), Some(&"v".to_string()));
    assert_eq!(t.try_cast_i32(), None);
    assert_eq!(t.try_cast_i64(), None);
    assert_eq!(t.try_cast_bool(), None);
}
