//! The consumer-facing enumeration capability: an ordered read of a record's
//! fields as (name, type-erased value) entries, and its write-capable
//! counterpart that stores such entries back into the record's fields.

use vstd::prelude::*;

use crate::erased::{FieldEntry, FieldValue};

verus! {

/// The model of an entry list: each entry as its name and its erased value.
pub open spec fn entries_model(entries: Seq<FieldEntry>) -> Seq<(Seq<char>, FieldValue)> {
    entries.map_values(|e: FieldEntry| (e.name@, e.value))
}

/// Whether one modelled entry may stand in another's place: the same field
/// name and the same erased type identity.
pub open spec fn entry_matches(a: (Seq<char>, FieldValue), b: (Seq<char>, FieldValue)) -> bool {
    a.0 == b.0 && a.1.kind() == b.1.kind()
}

/// Whether an entry list `a` has the exact shape of a record's field model
/// `b`: the same number of entries, and at each position the same name and
/// the same erased type identity.
pub open spec fn shape_matches(
    a: Seq<(Seq<char>, FieldValue)>,
    b: Seq<(Seq<char>, FieldValue)>,
) -> bool {
    a.len() == b.len() && forall|i: int|
        0 <= i < a.len() ==> #[trigger] entry_matches(a[i], b[i])
}

/// The field-enumeration capability. A record type equipped with it exposes
/// its named fields, in declaration order, as (name, type-erased value)
/// entries. Consumers depend only on this interface and work uniformly across
/// every record type that implements it.
pub trait Iterable: Sized {
    /// The record's fields as ordered (name, erased value) pairs, in
    /// declaration order. Every enumeration is an exact image of this model.
    spec fn field_model(&self) -> Seq<(Seq<char>, FieldValue)>;

    /// The immutable enumerator: one entry per field, in declaration order,
    /// each carrying the field's name and its current value behind the
    /// type-erased carrier. The list is materialized fresh on every call.
    fn iter(&self) -> (entries: Vec<FieldEntry>)
        ensures
            entries_model(entries@) == self.field_model(),
    ;

    /// The write-capable enumerator: stores `entries` into the record's
    /// fields, in place. The store succeeds exactly when the entries mirror
    /// the record's own shape (same field names in declaration order, each
    /// value of the field's true type); the record then holds exactly the
    /// given values, and a rejected store leaves it untouched.
    fn iter_mut(&mut self, entries: Vec<FieldEntry>) -> (ok: bool)
        ensures
            ok == shape_matches(entries_model(entries@), old(self).field_model()),
            ok ==> final(self).field_model() == entries_model(entries@),
            !ok ==> *final(self) == *old(self),
    ;
}

/// Both enumerators address the same underlying fields: storing `entries`
/// through the write-capable enumerator and then reading the record back
/// through the immutable one yields exactly the stored entries. The store
/// round-trips exactly when the entries mirror the record's shape.
pub fn store_then_read<T: Iterable>(record: &mut T, entries: Vec<FieldEntry>) -> (r: Option<
    Vec<FieldEntry>,
>)
    ensures
        (r is Some) == shape_matches(entries_model(entries@), old(record).field_model()),
        r matches Some(read) ==> entries_model(read@) == entries_model(entries@),
        r is None ==> *final(record) == *old(record),
{
    let stored = record.iter_mut(entries);
    if stored {
        Some(record.iter())
    } else {
        None
    }
}

} // verus!
