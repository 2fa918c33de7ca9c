//! Preliminary values: what a writer builds before anything is in the
//! document.

use crate::doc::{Cell, Value};
use crate::schema::{FieldType, RecordView, Schema};
use crate::try_from_yrs_value::TryFromYrsValue;
use crate::yrs_basic_types::{
    duration_in_range,
    duration_representable,
    timestamp_in_range,
    timestamp_representable,
};
use vstd::prelude::*;

verus! {

/// A value of any type of a schema that is not written yet.
#[derive(Debug)]
pub enum Prelim {
    Bool(bool),
    /// Milliseconds since the Unix epoch.
    DateTime(i64),
    /// Milliseconds.
    Duration(i64),
    Text(String),
    /// The 16 bytes of a UUID.
    Uuid([u8; 16]),
    /// One entry for each field of the record type, in declaration order;
    /// `None` for an optional field that is left out.
    Record(Vec<Option<Prelim>>),
    /// The elements of a collection, in order.
    List(Vec<Prelim>),
}

/// The mathematical content of a [`Prelim`].
pub enum PrelimView {
    Bool(bool),
    DateTime(i64),
    Duration(i64),
    Text(Seq<char>),
    Uuid(Seq<u8>),
    Record(Seq<Option<PrelimView>>),
    List(Seq<PrelimView>),
}

impl Prelim {
    /// The value with its strings and vectors as sequences.
    pub open spec fn model(&self) -> PrelimView
        decreases self,
    {
        match self {
            Prelim::Bool(b) => PrelimView::Bool(*b),
            Prelim::DateTime(n) => PrelimView::DateTime(*n),
            Prelim::Duration(n) => PrelimView::Duration(*n),
            Prelim::Text(text) => PrelimView::Text(text@),
            Prelim::Uuid(bytes) => PrelimView::Uuid(bytes@),
            Prelim::Record(fs) => PrelimView::Record(
                Seq::new(
                    fs@.len(),
                    |k: int|
                        if 0 <= k < fs@.len() {
                            match fs@[k] {
                                Some(fp) => Some(fp.model()),
                                None => None,
                            }
                        } else {
                            None
                        },
                ),
            ),
            Prelim::List(xs) => PrelimView::List(
                Seq::new(
                    xs@.len(),
                    |i: int|
                        if 0 <= i < xs@.len() {
                            xs@[i].model()
                        } else {
                            PrelimView::Bool(false)
                        },
                ),
            ),
        }
    }
}

impl View for Prelim {
    type V = PrelimView;

    open spec fn view(&self) -> PrelimView {
        self.model()
    }
}

/// `p` is a value of type `ty`: it has the type's shape all the way down, it
/// leaves out no required field, its timestamps and durations exist, its
/// UUIDs have 16 bytes, and none of its collections is longer than an array
/// node can be.
pub open spec fn conforms(s: Seq<RecordView>, ty: FieldType, p: PrelimView) -> bool
    decreases p,
{
    match p {
        PrelimView::Bool(_) => ty is Bool,
        PrelimView::DateTime(n) => ty is DateTime && timestamp_in_range(n),
        PrelimView::Duration(n) => ty is Duration && duration_in_range(n),
        PrelimView::Text(_) => ty is Text,
        PrelimView::Uuid(bytes) => ty is Uuid && bytes.len() == 16,
        PrelimView::Record(fs) => match ty {
            FieldType::Record(r) => {
                &&& r < s.len()
                &&& fs.len() == s[r as int].fields.len()
                &&& forall|k: int|
                    0 <= k < fs.len() ==> match #[trigger] fs[k] {
                        Some(fp) => conforms(s, s[r as int].fields[k].ty, fp),
                        None => !s[r as int].fields[k].required,
                    }
            },
            _ => false,
        },
        PrelimView::List(xs) => match ty {
            FieldType::Collection(inner) => {
                &&& xs.len() <= u32::MAX
                &&& forall|i: int| 0 <= i < xs.len() ==> conforms(s, *inner, #[trigger] xs[i])
            },
            _ => false,
        },
    }
}

/// The primitive that a boolean, a timestamp or a duration is written as:
/// a boolean as a boolean, a timestamp and a duration as the 64-bit integer
/// of their milliseconds. Every other value is written as a node and has
/// none.
pub open spec fn primitive_cell(p: PrelimView) -> Option<Cell> {
    match p {
        PrelimView::Bool(b) => Some(Cell::Bool(b)),
        PrelimView::DateTime(n) => Some(Cell::BigInt(n)),
        PrelimView::Duration(n) => Some(Cell::BigInt(n)),
        _ => None,
    }
}

impl Prelim {
    /// Computes [`primitive_cell`].
    pub fn primitive(&self) -> (r: Option<Value>)
        ensures
            match primitive_cell(self@) {
                Some(cell) => r matches Some(v) && v@ == cell,
                None => r is None,
            },
    {
        match self {
            Prelim::Bool(b) => Some(Value::Bool(*b)),
            Prelim::DateTime(n) => Some(Value::BigInt(*n)),
            Prelim::Duration(n) => Some(Value::BigInt(*n)),
            _ => None,
        }
    }

    /// Computes [`conforms`].
    pub fn conforms_to(&self, schema: &Schema, ty: &FieldType) -> (b: bool)
        ensures
            b == conforms(schema@, *ty, self@),
        decreases self,
    {
        let ghost s = schema@;
        match self {
            Prelim::Bool(_) => matches!(ty, FieldType::Bool),
            Prelim::DateTime(n) => matches!(ty, FieldType::DateTime) && timestamp_representable(*n),
            Prelim::Duration(n) => matches!(ty, FieldType::Duration) && duration_representable(*n),
            Prelim::Text(_) => matches!(ty, FieldType::Text),
            Prelim::Uuid(_) => matches!(ty, FieldType::Uuid),
            Prelim::Record(fs) => match ty {
                FieldType::Record(r) => {
                    let record = match schema.get(*r) {
                        Some(record) => record,
                        None => {
                            return false;
                        },
                    };
                    if fs.len() != record.fields.len() {
                        return false;
                    }
                    let mut k: usize = 0;
                    while k < fs.len()
                        invariant
                            k <= fs.len(),
                            s == schema@,
                            *r < s.len(),
                            record@ == s[*r as int],
                            fs@.len() == record.fields@.len(),
                            record@.fields.len() == record.fields@.len(),
                            *self == Prelim::Record(*fs),
                            *ty == FieldType::Record(*r),
                            forall|j: int|
                                0 <= j < k ==> match #[trigger] self@->Record_0[j] {
                                    Some(fp) => conforms(s, record@.fields[j].ty, fp),
                                    None => !record.fields@[j].required,
                                },
                        decreases fs.len() - k,
                    {
                        assert(self@->Record_0[k as int] == match fs@[k as int] {
                            Some(fp) => Some(fp@),
                            None => None,
                        });
                        let ok = match &fs[k] {
                            Some(fp) => fp.conforms_to(schema, &record.fields[k].ty),
                            None => !record.fields[k].required,
                        };
                        if !ok {
                            return false;
                        }
                        k = k + 1;
                    }
                    true
                },
                _ => false,
            },
            Prelim::List(xs) => match ty {
                FieldType::Collection(inner) => {
                    if xs.len() > u32::MAX as usize {
                        return false;
                    }
                    let mut i: usize = 0;
                    while i < xs.len()
                        invariant
                            i <= xs.len(),
                            s == schema@,
                            *self == Prelim::List(*xs),
                            *ty == FieldType::Collection(*inner),
                            xs@.len() <= u32::MAX,
                            forall|j: int|
                                0 <= j < i ==> conforms(s, **inner, #[trigger] self@->List_0[j]),
                        decreases xs.len() - i,
                    {
                        assert(self@->List_0[i as int] == xs@[i as int]@);
                        if !xs[i].conforms_to(schema, inner) {
                            return false;
                        }
                        i = i + 1;
                    }
                    true
                },
                _ => false,
            },
        }
    }
}

/// A typed value that is not written yet.
///
/// An implementation says which dynamic value it stands for and as which
/// typed handle it is read back once it is written.
pub trait ToPrelim {
    /// What the value is read back as.
    type Return: TryFromYrsValue;

    /// The value as a dynamic value.
    spec fn model(&self) -> PrelimView;

    /// No collection in the value is longer than an array node can be.
    spec fn small(&self) -> bool;

    /// Builds the dynamic value. It conforms to the schema type of
    /// [`ToPrelim::Return`] unless a collection in it is too long.
    fn to_prelim(&self) -> (p: Prelim)
        ensures
            p@ == self.model(),
            self.small() ==> conforms(
                Self::Return::records(),
                Self::Return::field_type(),
                self.model(),
            ),
    ;
}

} // verus!
