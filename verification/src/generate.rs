//! The enumeration generator: consumes a record shape and emits the source of
//! the two enumeration operations, attached to the record type. The output is
//! a function of the shape alone, so generation is textually deterministic.

use vstd::prelude::*;

use crate::shape::{field_names, inspect, inspect_result, FieldDef, RecordShape, TypeDef,
    UnsupportedKind};

verus! {

/// The emitted source of one immutable entry: the field's name paired with a
/// read-only type-erased reference to the field.
pub open spec fn entry_source(name: Seq<char>) -> Seq<char> {
    "            (\""@ + name + "\", &(self."@ + name
        + ") as &dyn std::any::Any),\n"@
}

/// The emitted source of one mutable entry: the field's name paired with a
/// write-capable type-erased reference to the field.
pub open spec fn entry_mut_source(name: Seq<char>) -> Seq<char> {
    "            (\""@ + name + "\", &mut (self."@ + name
        + ") as &mut dyn std::any::Any),\n"@
}

/// The immutable entry lines for `names`, in order.
pub open spec fn entries_source(names: Seq<Seq<char>>) -> Seq<char>
    decreases names.len(),
{
    if names.len() == 0 {
        Seq::<char>::empty()
    } else {
        entries_source(names.drop_last()) + entry_source(names.last())
    }
}

/// The mutable entry lines for `names`, in order.
pub open spec fn entries_mut_source(names: Seq<Seq<char>>) -> Seq<char>
    decreases names.len(),
{
    if names.len() == 0 {
        Seq::<char>::empty()
    } else {
        entries_mut_source(names.drop_last()) + entry_mut_source(names.last())
    }
}

/// The emitted source of the immutable enumerator.
pub open spec fn iter_fn_source(names: Seq<Seq<char>>) -> Seq<char> {
    "    fn iter(&self) -> std::vec::IntoIter<(&'static str, &dyn std::any::Any)> {\n        vec![\n"@
        + entries_source(names) + "        ].into_iter()\n    }\n"@
}

/// The emitted source of the mutable enumerator.
pub open spec fn iter_mut_fn_source(names: Seq<Seq<char>>) -> Seq<char> {
    "    fn iter_mut(&mut self) -> std::vec::IntoIter<(&'static str, &mut dyn std::any::Any)> {\n        vec![\n"@
        + entries_mut_source(names) + "        ].into_iter()\n    }\n"@
}

/// The whole emitted impl for a record named `name` whose fields are
/// `fields`, in declaration order: both enumerators, attached to the type.
pub open spec fn generated_source(name: Seq<char>, fields: Seq<Seq<char>>) -> Seq<char> {
    "impl Iterable for "@ + name + " {\n"@ + iter_fn_source(fields) + "\n"@
        + iter_mut_fn_source(fields) + "}\n"@
}

/// The emitted source depends on the record's name and its field names
/// alone: fields with equal names but different declared types, or different
/// visibility, generate the same operations.
pub proof fn lemma_generation_ignores_declared_types(
    a: Seq<FieldDef>,
    b: Seq<FieldDef>,
    name: Seq<char>,
)
    requires
        field_names(a) == field_names(b),
    ensures
        generated_source(name, field_names(a)) == generated_source(name, field_names(b)),
{
}

/// Appends the immutable entry line for the field named `name`.
fn push_entry(out: &mut String, name: &str)
    ensures
        final(out)@ == old(out)@ + entry_source(name@),
{
    out.append("            (\"");
    out.append(name);
    out.append("\", &(self.");
    out.append(name);
    out.append(") as &dyn std::any::Any),\n");
    proof {
        assert(out@ =~= old(out)@ + entry_source(name@));
    }
}

/// Appends the mutable entry line for the field named `name`.
fn push_entry_mut(out: &mut String, name: &str)
    ensures
        final(out)@ == old(out)@ + entry_mut_source(name@),
{
    out.append("            (\"");
    out.append(name);
    out.append("\", &mut (self.");
    out.append(name);
    out.append(") as &mut dyn std::any::Any),\n");
    proof {
        assert(out@ =~= old(out)@ + entry_mut_source(name@));
    }
}

/// Appends one immutable entry line per field, in declaration order.
fn push_entries(out: &mut String, fields: &Vec<FieldDef>)
    ensures
        final(out)@ == old(out)@ + entries_source(field_names(fields@)),
{
    let ghost names = field_names(fields@);
    let mut i: usize = 0;
    while i < fields.len()
        invariant
            0 <= i <= fields.len(),
            names == field_names(fields@),
            names.len() == fields@.len(),
            out@ == old(out)@ + entries_source(names.take(i as int)),
        decreases fields.len() - i,
    {
        push_entry(out, fields[i].name.as_str());
        proof {
            assert(names[i as int] == fields@[i as int].name@);
            assert(names.take(i + 1).drop_last() =~= names.take(i as int));
            assert(names.take(i + 1).last() == names[i as int]);
            assert(out@ =~= old(out)@ + entries_source(names.take(i + 1)));
        }
        i = i + 1;
    }
    proof {
        assert(names.take(fields@.len() as int) =~= names);
    }
}

/// Appends one mutable entry line per field, in declaration order.
fn push_entries_mut(out: &mut String, fields: &Vec<FieldDef>)
    ensures
        final(out)@ == old(out)@ + entries_mut_source(field_names(fields@)),
{
    let ghost names = field_names(fields@);
    let mut i: usize = 0;
    while i < fields.len()
        invariant
            0 <= i <= fields.len(),
            names == field_names(fields@),
            names.len() == fields@.len(),
            out@ == old(out)@ + entries_mut_source(names.take(i as int)),
        decreases fields.len() - i,
    {
        push_entry_mut(out, fields[i].name.as_str());
        proof {
            assert(names[i as int] == fields@[i as int].name@);
            assert(names.take(i + 1).drop_last() =~= names.take(i as int));
            assert(names.take(i + 1).last() == names[i as int]);
            assert(out@ =~= old(out)@ + entries_mut_source(names.take(i + 1)));
        }
        i = i + 1;
    }
    proof {
        assert(names.take(fields@.len() as int) =~= names);
    }
}

/// Emits the two enumeration operations for `shape`, exactly as
/// `generated_source` lays them out, one entry per field in declaration
/// order.
pub fn generate(shape: &RecordShape) -> (r: String)
    ensures
        r@ == generated_source(shape.record_name@, field_names(shape.fields@)),
{
    let mut out = String::new();
    out.append("impl Iterable for ");
    out.append(shape.record_name.as_str());
    out.append(" {\n");
    out.append(
        "    fn iter(&self) -> std::vec::IntoIter<(&'static str, &dyn std::any::Any)> {\n        vec![\n",
    );
    push_entries(&mut out, &shape.fields);
    out.append("        ].into_iter()\n    }\n");
    out.append("\n");
    out.append(
        "    fn iter_mut(&mut self) -> std::vec::IntoIter<(&'static str, &mut dyn std::any::Any)> {\n        vec![\n",
    );
    push_entries_mut(&mut out, &shape.fields);
    out.append("        ].into_iter()\n    }\n");
    out.append("}\n");
    proof {
        assert(out@ =~= generated_source(shape.record_name@, field_names(shape.fields@)));
    }
    out
}

/// The derivation step: validates the definition's shape and emits the
/// enumeration operations for it. Succeeds exactly on named-field records;
/// an unsupported shape is reported and produces no output.
pub fn make_iterable(def: TypeDef) -> (r: Result<String, UnsupportedKind>)
    ensures
        match inspect_result(def) {
            Ok(shape) => r matches Ok(src) && src@ == generated_source(
                shape.record_name@,
                field_names(shape.fields@),
            ),
            Err(e) => r == Err::<String, UnsupportedKind>(e),
        },
{
    match inspect(def) {
        Ok(shape) => Ok(generate(&shape)),
        Err(e) => Err(e),
    }
}

} // verus!
