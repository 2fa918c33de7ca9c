//! Typed handles: what a value that was read and validated is wrapped in.

use crate::doc::{Cell, DocView, Value};
use crate::read_txn::ReadTxn;
use crate::schema::{FieldType, RecordView, Schema};
use crate::yrs_basic_types::{
    duration_in_range,
    duration_representable,
    timestamp_in_range,
    timestamp_representable,
};
use crate::yrs_struct::{check, field_read, read_optional, read_required, validate};
use crate::yrs_wrapper_error::{ErrorView, YrsResult};
use vstd::prelude::*;

verus! {

/// `cell` has the outermost shape of a value of type `ty`: the right
/// primitive in range, or the right kind of node.
pub open spec fn fits(ty: FieldType, cell: Cell) -> bool {
    match ty {
        FieldType::Bool => cell is Bool,
        FieldType::DateTime => cell matches Cell::BigInt(n) && timestamp_in_range(n),
        FieldType::Duration => cell matches Cell::BigInt(n) && duration_in_range(n),
        FieldType::Text => cell is YText,
        FieldType::Uuid => cell is YText,
        FieldType::Record(_) => cell is YMap,
        FieldType::Collection(_) => cell is YArray,
    }
}

/// Computes [`fits`].
pub fn has_shape(ty: &FieldType, value: &Value) -> (b: bool)
    ensures
        b == fits(*ty, value@),
{
    match ty {
        FieldType::Bool => matches!(value, Value::Bool(_)),
        FieldType::DateTime => match value {
            Value::BigInt(n) => timestamp_representable(*n),
            _ => false,
        },
        FieldType::Duration => match value {
            Value::BigInt(n) => duration_representable(*n),
            _ => false,
        },
        FieldType::Text => matches!(value, Value::YText(_)),
        FieldType::Uuid => matches!(value, Value::YText(_)),
        FieldType::Record(_) => matches!(value, Value::YMap(_)),
        FieldType::Collection(_) => matches!(value, Value::YArray(_)),
    }
}

/// A type whose values are read from cells of a document.
///
/// An implementation names the schema type that it reads and says how a
/// validated cell is wrapped. Reading itself is the same for all of them:
/// the cell is validated against the schema type and then wrapped.
pub trait TryFromYrsValue: Sized {
    /// The record types of the schema that the type belongs to.
    spec fn records() -> Seq<RecordView>;

    /// The schema type that values of the type are read as.
    spec fn field_type() -> FieldType;

    /// The cell that the value was read from.
    spec fn cell(&self) -> Cell;

    /// The schema of [`TryFromYrsValue::records`].
    fn schema() -> (s: Schema)
        ensures
            s@ == Self::records(),
    ;

    /// The type of [`TryFromYrsValue::field_type`].
    fn exec_field_type() -> (ty: FieldType)
        ensures
            ty == Self::field_type(),
            ty.closed(Self::records().len()),
    ;

    /// Wraps a cell whose outermost shape is that of the type.
    fn from_validated(value: Value) -> (r: Self)
        requires
            fits(Self::field_type(), value@),
        ensures
            r.cell() == value@,
    ;

    /// Reads a value of the type from a cell of the document: `Ok` exactly
    /// where the cell decodes as the schema type, and else the error that
    /// [`check`] names.
    fn try_from_yrs_value<R: ReadTxn>(value: Value, txn: &R) -> (r: YrsResult<Self>)
        requires
            txn.view().readable(value@),
            txn.view().live(value@),
        ensures
            match check(txn.view(), Self::records(), Self::field_type(), value@) {
                Ok(()) => r matches Ok(x) && x.cell() == value@,
                Err(e) => r matches Err(got) && got@ == e,
            },
    {
        let schema = Self::schema();
        let ty = Self::exec_field_type();
        match validate(&schema, &ty, &value, txn) {
            Ok(()) => Ok(Self::from_validated(value)),
            Err(e) => Err(e),
        }
    }
}

/// Whether the typed `r` is what `expected` says: the handle wraps the cell
/// that was read, which is live in the document, and errors are compared by
/// content.
pub open spec fn typed_read<T: TryFromYrsValue>(
    d: DocView,
    r: Option<YrsResult<T>>,
    expected: Option<Result<Cell, ErrorView>>,
) -> bool {
    match expected {
        None => r is None,
        Some(Ok(cell)) => r matches Some(Ok(x)) && x.cell() == cell && d.live(cell),
        Some(Err(e)) => r matches Some(Err(got)) && got@ == e,
    }
}

/// Reads field `k` of the record type at index `record`, which is
/// required and of the schema type of `T`, from the map node `map`.
pub fn read_required_as<T: TryFromYrsValue, R: ReadTxn>(
    schema: &Schema,
    record: usize,
    k: usize,
    map: &yrs::MapRef,
    txn: &R,
) -> (r: YrsResult<T>)
    requires
        txn.view().readable(Cell::YMap(*map)),
        record < schema@.len(),
        k < schema@[record as int].fields.len(),
        schema@[record as int].fields[k as int].required,
        schema@[record as int].fields[k as int].ty == T::field_type(),
        txn.view().maps.contains_key(*map),
    ensures
        typed_read(
            txn.view(),
            Some(r),
            field_read(txn.view(), schema@, schema@[record as int].fields[k as int], *map),
        ),
{
    let rec = schema.record(record);
    match read_required(schema, &rec.fields[k], map, txn) {
        Ok(v) => Ok(T::from_validated(v)),
        Err(e) => Err(e),
    }
}

/// Reads field `k` of the record type at index `record`, which is of the
/// schema type of `T`, from the map node `map`: `None` where the field is
/// optional and has no entry.
pub fn read_optional_as<T: TryFromYrsValue, R: ReadTxn>(
    schema: &Schema,
    record: usize,
    k: usize,
    map: &yrs::MapRef,
    txn: &R,
) -> (r: Option<YrsResult<T>>)
    requires
        txn.view().readable(Cell::YMap(*map)),
        record < schema@.len(),
        k < schema@[record as int].fields.len(),
        schema@[record as int].fields[k as int].ty == T::field_type(),
        txn.view().maps.contains_key(*map),
    ensures
        typed_read(
            txn.view(),
            r,
            field_read(txn.view(), schema@, schema@[record as int].fields[k as int], *map),
        ),
{
    let rec = schema.record(record);
    match read_optional(schema, &rec.fields[k], map, txn) {
        None => None,
        Some(Ok(v)) => Some(Ok(T::from_validated(v))),
        Some(Err(e)) => Some(Err(e)),
    }
}

} // verus!
