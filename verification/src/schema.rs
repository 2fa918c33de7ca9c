//! Schema descriptions: record types as ordered lists of named, typed
//! fields, each required or optional.
//!
//! A [`Schema`] is checked once, when it is built. A schema with two fields
//! of one name in a record, or with a field whose type names a record that
//! the schema does not hold, is never built, so nothing that reads or writes
//! a document has to deal with one.

use vstd::prelude::*;

verus! {

/// The type of a field or of a collection's elements.
#[derive(Debug)]
pub enum FieldType {
    Bool,
    DateTime,
    Duration,
    Text,
    Uuid,
    /// The record type at this index of the schema.
    Record(usize),
    /// An ordered collection of elements of one type.
    Collection(Box<FieldType>),
}

/// One field of a record type.
#[derive(Debug)]
pub struct Field {
    pub name: String,
    pub ty: FieldType,
    /// A required field is written always and must be found on reading; an
    /// optional one may be absent.
    pub required: bool,
}

/// A record type: a name and its fields, in declaration order.
#[derive(Debug)]
pub struct RecordType {
    pub name: String,
    pub fields: Vec<Field>,
}

/// Why a list of record types is no schema.
#[derive(Clone, Copy, Debug, PartialEq, Eq, Structural)]
pub enum SchemaError {
    /// The type of field `field` of record `record` names a record that the
    /// list does not hold.
    UnknownRecord { record: usize, field: usize },
    /// Fields `first` and `second` of record `record` have the same name.
    DuplicateField { record: usize, first: usize, second: usize },
}

/// The mathematical content of a [`Field`].
pub struct FieldView {
    pub name: Seq<char>,
    pub ty: FieldType,
    pub required: bool,
}

/// The mathematical content of a [`RecordType`].
pub struct RecordView {
    pub name: Seq<char>,
    pub fields: Seq<FieldView>,
}

impl View for Field {
    type V = FieldView;

    open spec fn view(&self) -> FieldView {
        FieldView { name: self.name@, ty: self.ty, required: self.required }
    }
}

/// The fields with their names as sequences.
pub open spec fn field_views(fields: Seq<Field>) -> Seq<FieldView> {
    Seq::new(fields.len(), |k: int| fields[k]@)
}

impl View for RecordType {
    type V = RecordView;

    open spec fn view(&self) -> RecordView {
        RecordView { name: self.name@, fields: field_views(self.fields@) }
    }
}

/// The record types with their names as sequences.
pub open spec fn record_views(records: Seq<RecordType>) -> Seq<RecordView> {
    Seq::new(records.len(), |r: int| records[r]@)
}

/// A checked list of record types.
#[derive(Debug)]
pub struct Schema {
    records: Vec<RecordType>,
}

impl FieldType {
    /// Every record that the type names is among the first `n`.
    pub open spec fn closed(self, n: nat) -> bool
        decreases self,
    {
        match self {
            FieldType::Record(r) => r < n,
            FieldType::Collection(inner) => inner.closed(n),
            _ => true,
        }
    }

    /// Computes [`FieldType::closed`].
    pub fn is_closed(&self, n: usize) -> (b: bool)
        ensures
            b == self.closed(n as nat),
        decreases self,
    {
        match self {
            FieldType::Record(r) => *r < n,
            FieldType::Collection(inner) => inner.is_closed(n),
            _ => true,
        }
    }
}

/// No two of the fields have one name.
pub open spec fn names_distinct(fields: Seq<FieldView>) -> bool {
    forall|i: int, j: int| 0 <= i < j < fields.len() ==> fields[i].name != fields[j].name
}

/// The types of all fields name records among the first `n` only.
pub open spec fn types_closed(fields: Seq<FieldView>, n: nat) -> bool {
    forall|k: int| 0 <= k < fields.len() ==> (#[trigger] fields[k]).ty.closed(n)
}

/// A record type that may stand in a schema of `n` records.
pub open spec fn record_ok(record: RecordView, n: nat) -> bool {
    types_closed(record.fields, n) && names_distinct(record.fields)
}

/// A list of record types that is a schema.
pub open spec fn schema_ok(records: Seq<RecordView>) -> bool {
    forall|r: int| 0 <= r < records.len() ==> record_ok(#[trigger] records[r], records.len())
}

/// The first field of `fields` whose type is not closed, if there is one.
fn first_open_type(fields: &Vec<Field>, n: usize) -> (r: Option<usize>)
    ensures
        r is None <==> types_closed(field_views(fields@), n as nat),
        r matches Some(k) ==> k < fields.len() && !fields[k as int].ty.closed(n as nat) && forall|
            j: int,
        |
            0 <= j < k ==> (#[trigger] field_views(fields@)[j]).ty.closed(n as nat),
{
    let mut k: usize = 0;
    while k < fields.len()
        invariant
            k <= fields.len(),
            forall|j: int| 0 <= j < k ==> (#[trigger] field_views(fields@)[j]).ty.closed(n as nat),
        decreases fields.len() - k,
    {
        if !fields[k].ty.is_closed(n) {
            assert(!field_views(fields@)[k as int].ty.closed(n as nat));
            return Some(k);
        }
        k = k + 1;
    }
    None
}

/// `second` is the first field that shares its name with an earlier one, and
/// `first` is the first field of that name.
pub open spec fn first_clash(fields: Seq<FieldView>, first: int, second: int) -> bool {
    &&& 0 <= first < second < fields.len()
    &&& fields[first].name == fields[second].name
    &&& forall|i: int| 0 <= i < first ==> (#[trigger] fields[i]).name != fields[second].name
    &&& forall|i: int, j: int| 0 <= i < j < second ==> fields[i].name != fields[j].name
}

/// The first pair of fields of one name, if there is one.
fn first_duplicate(fields: &Vec<Field>) -> (r: Option<(usize, usize)>)
    ensures
        r is None <==> names_distinct(field_views(fields@)),
        r matches Some((first, second)) ==> first_clash(
            field_views(fields@),
            first as int,
            second as int,
        ),
{
    let mut j: usize = 0;
    while j < fields.len()
        invariant
            j <= fields.len(),
            forall|a: int, b: int|
                0 <= a < b < j ==> field_views(fields@)[a].name != field_views(fields@)[b].name,
        decreases fields.len() - j,
    {
        let mut i: usize = 0;
        while i < j
            invariant
                i <= j < fields.len(),
                forall|a: int, b: int|
                    0 <= a < b < j ==> field_views(fields@)[a].name != field_views(fields@)[b].name,
                forall|a: int|
                    0 <= a < i ==> (#[trigger] field_views(fields@)[a]).name != field_views(
                        fields@,
                    )[j as int].name,
            decreases j - i,
        {
            if fields[i].name == fields[j].name {
                assert(field_views(fields@)[i as int].name == field_views(fields@)[j as int].name);
                return Some((i, j));
            }
            i = i + 1;
        }
        j = j + 1;
    }
    None
}

impl View for Schema {
    type V = Seq<RecordView>;

    closed spec fn view(&self) -> Seq<RecordView> {
        record_views(self.records@)
    }
}

impl Schema {
    #[verifier::type_invariant]
    spec fn inv(self) -> bool {
        schema_ok(record_views(self.records@))
    }

    /// Builds the schema of `records`, or names the first fault: the first
    /// record that is not in order, and in it the first field whose type
    /// names a record that is not there, else the first pair of fields with
    /// one name.
    pub fn new(records: Vec<RecordType>) -> (r: Result<Schema, SchemaError>)
        ensures
            r is Ok <==> schema_ok(record_views(records@)),
            r matches Ok(s) ==> s@ == record_views(records@),
            r matches Err(e) ==> forall|i: int|
                0 <= i < fault_record(e) ==> record_ok(
                    #[trigger] record_views(records@)[i],
                    records@.len(),
                ),
            r matches Err(SchemaError::UnknownRecord { record, field }) ==> {
                let fields = record_views(records@)[record as int].fields;
                &&& record < records@.len()
                &&& field < fields.len()
                &&& !fields[field as int].ty.closed(records@.len())
                &&& forall|k: int|
                    0 <= k < field ==> (#[trigger] fields[k]).ty.closed(records@.len())
            },
            r matches Err(SchemaError::DuplicateField { record, first, second }) ==> {
                let fields = record_views(records@)[record as int].fields;
                &&& record < records@.len()
                &&& types_closed(fields, records@.len())
                &&& first_clash(fields, first as int, second as int)
            },
    {
        let n = records.len();
        let mut r: usize = 0;
        while r < n
            invariant
                n == records.len(),
                r <= n,
                forall|i: int|
                    0 <= i < r ==> record_ok(#[trigger] record_views(records@)[i], n as nat),
            decreases n - r,
        {
            match first_open_type(&records[r].fields, n) {
                Some(field) => {
                    return Err(SchemaError::UnknownRecord { record: r, field });
                },
                None => {},
            }
            match first_duplicate(&records[r].fields) {
                Some((first, second)) => {
                    assert(!record_ok(record_views(records@)[r as int], n as nat));
                    return Err(SchemaError::DuplicateField { record: r, first, second });
                },
                None => {},
            }
            r = r + 1;
        }
        Ok(Schema { records })
    }

    /// The schema without any record type.
    pub fn empty() -> (s: Schema)
        ensures
            s@ == Seq::<RecordView>::empty(),
    {
        Schema { records: Vec::new() }
    }

    /// The number of record types.
    pub fn len(&self) -> (n: usize)
        ensures
            n == self@.len(),
    {
        self.records.len()
    }

    /// The record type at index `r`.
    pub fn record(&self, r: usize) -> (record: &RecordType)
        requires
            r < self@.len(),
        ensures
            record@ == self@[r as int],
            record_ok(record@, self@.len()),
    {
        proof {
            use_type_invariant(self);
        }
        &self.records[r]
    }

    /// The record type at index `r`, `None` where the schema has fewer.
    pub fn get(&self, r: usize) -> (record: Option<&RecordType>)
        ensures
            record is Some <==> r < self@.len(),
            record matches Some(found) ==> found@ == self@[r as int] && record_ok(
                found@,
                self@.len(),
            ),
    {
        if r < self.len() {
            Some(self.record(r))
        } else {
            None
        }
    }
}

/// The record at which building a schema stopped.
pub open spec fn fault_record(e: SchemaError) -> int {
    match e {
        SchemaError::UnknownRecord { record, .. } => record as int,
        SchemaError::DuplicateField { record, .. } => record as int,
    }
}

} // verus!
