//! Record types equipped with the enumeration capability: one entry per
//! named field, in declaration order, as every generated record exposes it.

use vstd::prelude::*;

use crate::erased::{FieldEntry, FieldValue};
use crate::iterable::{entries_model, entry_matches, shape_matches, Iterable};

verus! {

/// Whether `s` holds exactly the characters of `lit`.
fn string_matches(s: &String, lit: &str) -> (r: bool)
    ensures
        r == (s@ == lit@),
{
    let other: String = lit.to_owned();
    s.eq(&other)
}

/// A record of two integer coordinates.
pub struct Point {
    pub x: i32,
    pub y: i32,
}

impl Iterable for Point {
    open spec fn field_model(&self) -> Seq<(Seq<char>, FieldValue)> {
        seq![("x"@, FieldValue::I32(self.x)), ("y"@, FieldValue::I32(self.y))]
    }

    fn iter(&self) -> (entries: Vec<FieldEntry>) {
        let mut entries: Vec<FieldEntry> = Vec::new();
        entries.push(FieldEntry { name: String::from_str("x"), value: FieldValue::I32(self.x) });
        entries.push(FieldEntry { name: String::from_str("y"), value: FieldValue::I32(self.y) });
        proof {
            assert(entries_model(entries@) =~= self.field_model());
        }
        entries
    }

    fn iter_mut(&mut self, entries: Vec<FieldEntry>) -> (ok: bool) {
        let ghost m = entries_model(entries@);
        let ghost fm = self.field_model();
        if entries.len() != 2 {
            return false;
        }
        if !(string_matches(&entries[0].name, "x") && string_matches(&entries[1].name, "y")) {
            proof {
                if shape_matches(m, fm) {
                    assert(entry_matches(m[0], fm[0]));
                    assert(entry_matches(m[1], fm[1]));
                }
            }
            return false;
        }
        match (&entries[0].value, &entries[1].value) {
            (FieldValue::I32(a), FieldValue::I32(b)) => {
                self.x = *a;
                self.y = *b;
                proof {
                    assert(entry_matches(m[0], fm[0]));
                    assert(entry_matches(m[1], fm[1]));
                    assert(shape_matches(m, fm));
                    assert(self.field_model() =~= m);
                }
                true
            },
            _ => {
                proof {
                    if shape_matches(m, fm) {
                        assert(entry_matches(m[0], fm[0]));
                        assert(entry_matches(m[1], fm[1]));
                    }
                }
                false
            },
        }
    }
}

/// A record of a single named field.
pub struct Wrapper {
    pub value: String,
}

impl Iterable for Wrapper {
    open spec fn field_model(&self) -> Seq<(Seq<char>, FieldValue)> {
        seq![("value"@, FieldValue::Text(self.value))]
    }

    fn iter(&self) -> (entries: Vec<FieldEntry>) {
        let mut entries: Vec<FieldEntry> = Vec::new();
        entries.push(
            FieldEntry { name: String::from_str("value"), value: FieldValue::Text(self.value.clone()) },
        );
        proof {
            assert(entries_model(entries@) =~= self.field_model());
        }
        entries
    }

    fn iter_mut(&mut self, entries: Vec<FieldEntry>) -> (ok: bool) {
        let ghost m = entries_model(entries@);
        let ghost fm = self.field_model();
        let mut entries = entries;
        if entries.len() != 1 {
            return false;
        }
        if !string_matches(&entries[0].name, "value") {
            proof {
                if shape_matches(m, fm) {
                    assert(entry_matches(m[0], fm[0]));
                }
            }
            return false;
        }
        let e = entries.pop().unwrap();
        match e.value {
            FieldValue::Text(s) => {
                self.value = s;
                proof {
                    assert(entry_matches(m[0], fm[0]));
                    assert(shape_matches(m, fm));
                    assert(self.field_model() =~= m);
                }
                true
            },
            _ => {
                proof {
                    if shape_matches(m, fm) {
                        assert(entry_matches(m[0], fm[0]));
                    }
                }
                false
            },
        }
    }
}

/// A record whose fields are of three different types.
pub struct Mixed {
    pub a: i32,
    pub b: bool,
    pub c: String,
}

impl Iterable for Mixed {
    open spec fn field_model(&self) -> Seq<(Seq<char>, FieldValue)> {
        seq![
            ("a"@, FieldValue::I32(self.a)),
            ("b"@, FieldValue::Bool(self.b)),
            ("c"@, FieldValue::Text(self.c)),
        ]
    }

    fn iter(&self) -> (entries: Vec<FieldEntry>) {
        let mut entries: Vec<FieldEntry> = Vec::new();
        entries.push(FieldEntry { name: String::from_str("a"), value: FieldValue::I32(self.a) });
        entries.push(FieldEntry { name: String::from_str("b"), value: FieldValue::Bool(self.b) });
        entries.push(
            FieldEntry { name: String::from_str("c"), value: FieldValue::Text(self.c.clone()) },
        );
        proof {
            assert(entries_model(entries@) =~= self.field_model());
        }
        entries
    }

    fn iter_mut(&mut self, entries: Vec<FieldEntry>) -> (ok: bool) {
        let ghost m = entries_model(entries@);
        let ghost fm = self.field_model();
        let mut entries = entries;
        if entries.len() != 3 {
            return false;
        }
        let names_ok = string_matches(&entries[0].name, "a")
            && string_matches(&entries[1].name, "b") && string_matches(&entries[2].name, "c");
        let kind_a = match &entries[0].value {
            FieldValue::I32(_) => true,
            _ => false,
        };
        let kind_b = match &entries[1].value {
            FieldValue::Bool(_) => true,
            _ => false,
        };
        let kind_c = match &entries[2].value {
            FieldValue::Text(_) => true,
            _ => false,
        };
        if !(names_ok && kind_a && kind_b && kind_c) {
            proof {
                if shape_matches(m, fm) {
                    assert(entry_matches(m[0], fm[0]));
                    assert(entry_matches(m[1], fm[1]));
                    assert(entry_matches(m[2], fm[2]));
                }
            }
            return false;
        }
        let e_c = entries.pop().unwrap();
        let e_b = entries.pop().unwrap();
        let e_a = entries.pop().unwrap();
        self.a = match &e_a.value {
            FieldValue::I32(v) => *v,
            _ => unreached(),
        };
        self.b = match &e_b.value {
            FieldValue::Bool(v) => *v,
            _ => unreached(),
        };
        self.c = match e_c.value {
            FieldValue::Text(s) => s,
            _ => unreached(),
        };
        proof {
            assert(entry_matches(m[0], fm[0]));
            assert(entry_matches(m[1], fm[1]));
            assert(entry_matches(m[2], fm[2]));
            assert(shape_matches(m, fm));
            assert(self.field_model() =~= m);
        }
        true
    }
}

} // verus!
