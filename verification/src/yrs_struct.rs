//! Reading typed values out of a document.
//!
//! [`check`] says, for a schema, a type and a cell of a document, whether the
//! cell decodes as a value of the type and with which error it fails.
//! [`validate`] computes it by walking the live document. A record is a map
//! node with an entry of the right type under the name of each required
//! field; a collection is an array node whose elements all decode.
//!
//! Reading asks that what is read is readable: that no node at or below it
//! holds a nested node of a kind that the engine does not hand out. The
//! engine fails on those and offers no way to tell them first. What this
//! crate has written is readable.

use crate::doc::{Cell, DocView, Value};
use crate::read_txn::ReadTxn;
use crate::schema::{Field, FieldType, FieldView, RecordView, Schema};
use crate::uuid::{from_text, uuid_of};
use crate::yrs_basic_types::{
    agrees,
    decode_bool,
    decode_datetime,
    decode_duration,
    YBool,
    YDateTime,
    YDuration,
};
use crate::yrs_wrapper_error::{ErrorView, YrsResult, YrsWrapperError};
use vstd::prelude::*;

verus! {

/// Forgets the decoded value and keeps whether decoding succeeded.
pub open spec fn outcome<T>(r: Result<T, ErrorView>) -> Result<(), ErrorView> {
    match r {
        Ok(_) => Ok(()),
        Err(e) => Err(e),
    }
}

/// Whether `cell` decodes as a value of type `ty` in the document `d`, and
/// the error with which it fails.
///
/// A record fails at its first field, in declaration order, that is required
/// and absent or that is present and does not decode. The error names the
/// field: [`ErrorView::MissingAttribute`] for the absent one, and
/// [`ErrorView::FieldDecode`] with the entry's error for the other. A
/// collection fails at its first element that does not decode, with the
/// element's index and error. A UUID is a text node that holds the
/// canonical text of a UUID.
pub open spec fn check(d: DocView, s: Seq<RecordView>, ty: FieldType, cell: Cell) -> Result<
    (),
    ErrorView,
>
    decreases d.heights[cell], 1nat, 0nat,
{
    match ty {
        FieldType::Bool => outcome(decode_bool(cell)),
        FieldType::DateTime => outcome(decode_datetime(cell)),
        FieldType::Duration => outcome(decode_duration(cell)),
        FieldType::Text => match cell {
            Cell::YText(_) => Ok(()),
            _ => Err(ErrorView::ExpectedText),
        },
        FieldType::Uuid => match cell {
            Cell::YText(text) => if uuid_of(d.texts[text]) is Some {
                Ok(())
            } else {
                Err(ErrorView::ValueOutOfRange)
            },
            _ => Err(ErrorView::ExpectedText),
        },
        FieldType::Record(r) => match cell {
            Cell::YMap(map) => check_fields(d, s, s[r as int].fields, map, 0),
            _ => Err(ErrorView::ExpectedMap),
        },
        FieldType::Collection(inner) => match cell {
            Cell::YArray(array) => check_items(d, s, *inner, array, 0),
            _ => Err(ErrorView::ExpectedArray),
        },
    }
}

/// [`check`] for the fields of a record from index `from` on, read from the
/// map node `map`.
pub open spec fn check_fields(
    d: DocView,
    s: Seq<RecordView>,
    fields: Seq<FieldView>,
    map: yrs::MapRef,
    from: nat,
) -> Result<(), ErrorView>
    decreases d.heights[Cell::YMap(map)], 0nat, fields.len() - from,
{
    if from >= fields.len() {
        Ok(())
    } else {
        let field = fields[from as int];
        if !d.maps[map].contains_key(field.name) {
            if field.required {
                Err(ErrorView::MissingAttribute { attr: field.name })
            } else {
                check_fields(d, s, fields, map, from + 1)
            }
        } else if !d.child_ok(Cell::YMap(map), d.maps[map][field.name]) {
            // Not reached in a well-formed document.
            Err(ErrorView::ExpectedMap)
        } else {
            match check(d, s, field.ty, d.maps[map][field.name]) {
                Err(e) => Err(ErrorView::FieldDecode { field: field.name, cause: Box::new(e) }),
                Ok(()) => check_fields(d, s, fields, map, from + 1),
            }
        }
    }
}

/// [`check`] for the elements of a collection from index `from` on, read
/// from the array node `array`.
pub open spec fn check_items(
    d: DocView,
    s: Seq<RecordView>,
    inner: FieldType,
    array: yrs::ArrayRef,
    from: nat,
) -> Result<(), ErrorView>
    decreases d.heights[Cell::YArray(array)], 0nat, d.arrays[array].len() - from,
{
    if from >= d.arrays[array].len() {
        Ok(())
    } else if !d.child_ok(Cell::YArray(array), d.arrays[array][from as int]) {
        // Not reached in a well-formed document.
        Err(ErrorView::ExpectedArray)
    } else {
        match check(d, s, inner, d.arrays[array][from as int]) {
            Err(e) => Err(ErrorView::ElementDecode { index: from, cause: Box::new(e) }),
            Ok(()) => check_items(d, s, inner, array, from + 1),
        }
    }
}

/// Decides whether `value` decodes as a value of type `ty`, reading through
/// the nodes below it.
pub fn validate<R: ReadTxn>(
    schema: &Schema,
    ty: &FieldType,
    value: &Value,
    txn: &R,
) -> (r: YrsResult<()>)
    requires
        txn.view().readable(value@),
        ty.closed(schema@.len()),
        txn.view().live(value@),
    ensures
        agrees(r, check(txn.view(), schema@, *ty, value@)),
    decreases txn.view().heights[value@],
{
    let ghost d = txn.view();
    let ghost s = schema@;
    match ty {
        FieldType::Bool => match YBool::from_value(value) {
            Ok(_) => Ok(()),
            Err(e) => Err(e),
        },
        FieldType::DateTime => match YDateTime::from_value(value) {
            Ok(_) => Ok(()),
            Err(e) => Err(e),
        },
        FieldType::Duration => match YDuration::from_value(value) {
            Ok(_) => Ok(()),
            Err(e) => Err(e),
        },
        FieldType::Text => match value {
            Value::YText(_) => Ok(()),
            _ => Err(YrsWrapperError::ExpectedText),
        },
        FieldType::Uuid => match value {
            Value::YText(text) => {
                let s = txn.string(text);
                match from_text(s.as_str()) {
                    Some(_) => Ok(()),
                    None => Err(YrsWrapperError::ValueOutOfRange),
                }
            },
            _ => Err(YrsWrapperError::ExpectedText),
        },
        FieldType::Record(r) => match value {
            Value::YMap(map) => {
                let record = schema.record(*r);
                let mut k: usize = 0;
                while k < record.fields.len()
                    invariant
                        k <= record.fields.len(),
                        d == txn.view(),
                        d.readable(value@),
                        s == schema@,
                        record@ == s[*r as int],
                        crate::schema::record_ok(record@, s.len()),
                        value@ == Cell::YMap(*map),
                        d.maps.contains_key(*map),
                        check(d, s, *ty, value@) == check_fields(
                            d,
                            s,
                            record@.fields,
                            *map,
                            k as nat,
                        ),
                    decreases record.fields.len() - k,
                {
                    let field = &record.fields[k];
                    match txn.entry(map, field.name.as_str()) {
                        None => {
                            if field.required {
                                return Err(
                                    YrsWrapperError::MissingAttribute { attr: field.name.clone() },
                                );
                            }
                        },
                        Some(v) => {
                            match validate(schema, &field.ty, &v, txn) {
                                Err(e) => {
                                    return Err(
                                        YrsWrapperError::FieldDecode {
                                            field: field.name.clone(),
                                            cause: Box::new(e),
                                        },
                                    );
                                },
                                Ok(()) => {},
                            }
                        },
                    }
                    k = k + 1;
                }
                Ok(())
            },
            _ => Err(YrsWrapperError::ExpectedMap),
        },
        FieldType::Collection(inner) => match value {
            Value::YArray(array) => {
                let items = txn.elements(array);
                let mut i: usize = 0;
                while i < items.len()
                    invariant
                        i <= items@.len() == d.arrays[*array].len() <= u32::MAX,
                        d == txn.view(),
                        d.readable(value@),
                        s == schema@,
                        inner.closed(s.len()),
                        value@ == Cell::YArray(*array),
                        forall|j: int|
                            0 <= j < items@.len() ==> (#[trigger] items@[j])@ == d.arrays[*array][j]
                                && d.child_ok(Cell::YArray(*array), items@[j]@),
                        check(d, s, *ty, value@) == check_items(d, s, **inner, *array, i as nat),
                    decreases items.len() - i,
                {
                    match validate(schema, inner, &items[i], txn) {
                        Err(e) => {
                            return Err(
                                YrsWrapperError::ElementDecode {
                                    index: i as u32,
                                    cause: Box::new(e),
                                },
                            );
                        },
                        Ok(()) => {},
                    }
                    i = i + 1;
                }
                Ok(())
            },
            _ => Err(YrsWrapperError::ExpectedArray),
        },
    }
}

/// What reading the field `field` of the record at the map node `map`
/// returns: nothing for an optional field without an entry, an error that
/// names the field for a required field without an entry or for an entry
/// that does not decode, and else the entry.
pub open spec fn field_read(
    d: DocView,
    s: Seq<RecordView>,
    field: FieldView,
    map: yrs::MapRef,
) -> Option<
    Result<Cell, ErrorView>,
> {
    if !d.maps[map].contains_key(field.name) {
        if field.required {
            Some(Err(ErrorView::MissingAttribute { attr: field.name }))
        } else {
            None
        }
    } else {
        match check(d, s, field.ty, d.maps[map][field.name]) {
            Ok(()) => Some(Ok(d.maps[map][field.name])),
            Err(e) => Some(Err(ErrorView::FieldDecode { field: field.name, cause: Box::new(e) })),
        }
    }
}

/// Whether `r` is what [`field_read`] says, values and errors compared by
/// content. What is read is live in the document.
pub open spec fn reads_as(
    d: DocView,
    r: Option<YrsResult<Value>>,
    expected: Option<Result<Cell, ErrorView>>,
) -> bool {
    match expected {
        None => r is None,
        Some(Ok(cell)) => r matches Some(Ok(v)) && v@ == cell && d.live(cell),
        Some(Err(e)) => r matches Some(Err(got)) && got@ == e,
    }
}

/// Reads a field by its name and validates what it finds. An optional field
/// without an entry is `None`; an entry that is there is always decoded, so
/// that a malformed optional field is an error and not an absence.
pub fn read_optional<R: ReadTxn>(
    schema: &Schema,
    field: &Field,
    map: &yrs::MapRef,
    txn: &R,
) -> (r: Option<YrsResult<Value>>)
    requires
        txn.view().readable(Cell::YMap(*map)),
        field.ty.closed(schema@.len()),
        txn.view().maps.contains_key(*map),
    ensures
        reads_as(txn.view(), r, field_read(txn.view(), schema@, field@, *map)),
{
    match txn.entry(map, field.name.as_str()) {
        None => {
            if field.required {
                Some(Err(YrsWrapperError::MissingAttribute { attr: field.name.clone() }))
            } else {
                None
            }
        },
        Some(v) => match validate(schema, &field.ty, &v, txn) {
            Ok(()) => Some(Ok(v)),
            Err(e) => Some(
                Err(YrsWrapperError::FieldDecode { field: field.name.clone(), cause: Box::new(e) }),
            ),
        },
    }
}

/// Reads a required field by its name and validates what it finds. It fails
/// with [`YrsWrapperError::MissingAttribute`] exactly where the record has
/// no entry of that name.
pub fn read_required<R: ReadTxn>(
    schema: &Schema,
    field: &Field,
    map: &yrs::MapRef,
    txn: &R,
) -> (r: YrsResult<Value>)
    requires
        txn.view().readable(Cell::YMap(*map)),
        field.required,
        field.ty.closed(schema@.len()),
        txn.view().maps.contains_key(*map),
    ensures
        reads_as(
            txn.view(),
            Some(r),
            field_read(txn.view(), schema@, field@, *map),
        ),
{
    match txn.entry(map, field.name.as_str()) {
        None => Err(YrsWrapperError::MissingAttribute { attr: field.name.clone() }),
        Some(v) => match validate(schema, &field.ty, &v, txn) {
            Ok(()) => Ok(v),
            Err(e) => Err(
                YrsWrapperError::FieldDecode { field: field.name.clone(), cause: Box::new(e) },
            ),
        },
    }
}

} // verus!
