//! Shape inspection: deciding whether a type definition is an eligible
//! named-field record and extracting its ordered field list.

use vstd::prelude::*;

verus! {

/// One field of a record type: its identifier and its declared type, both
/// rendered as text. Uniqueness of names within a record is guaranteed by the
/// host record's own declaration rules and is not re-validated here.
pub struct FieldDef {
    pub name: String,
    pub declared_type: String,
}

/// The field list of a record-like type definition.
pub enum FieldList {
    /// Fields declared with explicit identifiers, in declaration order.
    Named(Vec<FieldDef>),
    /// Positional (tuple-style) fields; only their count matters here.
    Unnamed(usize),
    /// No field list at all (a unit record).
    Unit,
}

/// The kind of a type definition handed to the derivation step.
pub enum TypeDefKind {
    /// A record (struct-like aggregate) carrying a field list.
    Record(FieldList),
    /// An enumerated type.
    Enumerated,
    /// An untagged union.
    Union,
}

/// A type definition as the derivation step sees it: its name and its kind.
pub struct TypeDef {
    pub name: String,
    pub kind: TypeDefKind,
}

/// The shape of an eligible record type: its name and its named fields in
/// declaration order, with no reordering and no filtering by visibility.
pub struct RecordShape {
    pub record_name: String,
    pub fields: Vec<FieldDef>,
}

/// Why a type definition was rejected by the shape inspector.
#[derive(Debug)]
pub enum UnsupportedKind {
    /// The definition is an enumerated or union type, not a record.
    NotARecord,
    /// The record's fields are positional or absent, not named.
    NotNamedFields,
}

impl UnsupportedKind {
    /// The message identifying which unsupported shape was encountered.
    pub fn message(&self) -> (r: &'static str)
        ensures
            *self is NotARecord ==> r@ == "only records are supported"@,
            *self is NotNamedFields ==> r@ == "only named fields are supported"@,
    {
        match self {
            UnsupportedKind::NotARecord => "only records are supported",
            UnsupportedKind::NotNamedFields => "only named fields are supported",
        }
    }
}

/// What shape inspection returns for a given type definition: the record
/// shape exactly when the definition is a record with named fields, and
/// otherwise the error naming the unsupported shape.
pub open spec fn inspect_result(def: TypeDef) -> Result<RecordShape, UnsupportedKind> {
    match def.kind {
        TypeDefKind::Record(FieldList::Named(fields)) => Ok(RecordShape {
            record_name: def.name,
            fields,
        }),
        TypeDefKind::Record(_) => Err(UnsupportedKind::NotNamedFields),
        _ => Err(UnsupportedKind::NotARecord),
    }
}

/// Validates that `def` is a named-field record and extracts its shape.
/// The field order of the result is exactly the declaration order.
pub fn inspect(def: TypeDef) -> (r: Result<RecordShape, UnsupportedKind>)
    ensures
        r == inspect_result(def),
{
    match def.kind {
        TypeDefKind::Record(fields) => match fields {
            FieldList::Named(fields) => Ok(RecordShape { record_name: def.name, fields }),
            _ => Err(UnsupportedKind::NotNamedFields),
        },
        _ => Err(UnsupportedKind::NotARecord),
    }
}

/// The names of `fields`, in order.
pub open spec fn field_names(fields: Seq<FieldDef>) -> Seq<Seq<char>> {
    fields.map_values(|f: FieldDef| f.name@)
}

} // verus!
