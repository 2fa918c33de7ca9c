//! The codec of the primitive field types: booleans, timestamps,
//! durations, texts and UUIDs.
//!
//! A boolean is stored as a boolean primitive. A timestamp and a duration
//! are both stored as a 64-bit integer primitive that counts milliseconds,
//! from the Unix epoch for a timestamp. A text is stored as a text node, and
//! a UUID as a text node that holds its canonical text.

use crate::doc::{Cell, Value};
use crate::prelim::{Prelim, PrelimView, ToPrelim};
use crate::read_txn::ReadTxn;
use crate::schema::{FieldType, RecordView, Schema};
use crate::try_from_yrs_value::TryFromYrsValue;
use crate::uuid::{from_text, uuid_of};
use crate::yrs_wrapper_error::{ErrorView, Kind, YrsResult, YrsWrapperError};
use vstd::pervasive::unreached;
use vstd::prelude::*;

verus! {

/// The least count of milliseconds since the Unix epoch for which `chrono`
/// has a date and time: the first instant of its least year.
pub const TIMESTAMP_MIN: i64 = -8_334_601_228_800_000;

/// The greatest count of milliseconds since the Unix epoch for which
/// `chrono` has a date and time: the last millisecond of its greatest year.
pub const TIMESTAMP_MAX: i64 = 8_210_266_876_799_999;

/// Whether `chrono` has a date and time for this many milliseconds since
/// the Unix epoch.
pub open spec fn timestamp_in_range(millis: i64) -> bool {
    TIMESTAMP_MIN <= millis <= TIMESTAMP_MAX
}

/// Whether `chrono` has a time span of this many milliseconds: every count
/// but the least one, whose negation does not exist.
pub open spec fn duration_in_range(millis: i64) -> bool {
    millis > i64::MIN
}

/// `chrono::DateTime::from_timestamp_millis`, asked only whether it finds a
/// date and time: it does for the counts from the first instant of
/// `NaiveDate::MIN` to the last millisecond of `NaiveDate::MAX`.
#[verifier::external_body]
pub(crate) fn timestamp_representable(millis: i64) -> (ok: bool)
    ensures
        ok == timestamp_in_range(millis),
{
    chrono::DateTime::from_timestamp_millis(millis).is_some()
}

/// Computes [`duration_in_range`].
pub(crate) fn duration_representable(millis: i64) -> (ok: bool)
    ensures
        ok == duration_in_range(millis),
{
    millis > i64::MIN
}

/// The boolean that `cell` stands for.
pub open spec fn decode_bool(cell: Cell) -> Result<bool, ErrorView> {
    match cell {
        Cell::Bool(b) => Ok(b),
        _ => Err(ErrorView::WrongKind { expected: Kind::Bool }),
    }
}

/// The integer that `cell` stands for.
pub open spec fn decode_bigint(cell: Cell) -> Result<i64, ErrorView> {
    match cell {
        Cell::BigInt(n) => Ok(n),
        _ => Err(ErrorView::WrongKind { expected: Kind::BigInt }),
    }
}

/// The string primitive that `cell` stands for.
pub open spec fn decode_string(cell: Cell) -> Result<Seq<char>, ErrorView> {
    match cell {
        Cell::Str(s) => Ok(s),
        _ => Err(ErrorView::WrongKind { expected: Kind::String }),
    }
}

/// The milliseconds since the Unix epoch of the timestamp that `cell`
/// stands for, given whether a date and time exists for the count it holds.
pub open spec fn timestamp_of(cell: Cell, in_range: bool) -> Result<i64, ErrorView> {
    match cell {
        Cell::BigInt(n) => if in_range {
            Ok(n)
        } else {
            Err(ErrorView::ValueOutOfRange)
        },
        _ => Err(ErrorView::WrongKind { expected: Kind::BigInt }),
    }
}

/// The milliseconds since the Unix epoch of the timestamp that `cell`
/// stands for.
pub open spec fn decode_datetime(cell: Cell) -> Result<i64, ErrorView> {
    match cell {
        Cell::BigInt(n) => timestamp_of(cell, timestamp_in_range(n)),
        _ => Err(ErrorView::WrongKind { expected: Kind::BigInt }),
    }
}

/// The milliseconds of the duration that `cell` stands for.
pub open spec fn decode_duration(cell: Cell) -> Result<i64, ErrorView> {
    match cell {
        Cell::BigInt(n) => if duration_in_range(n) {
            Ok(n)
        } else {
            Err(ErrorView::ValueOutOfRange)
        },
        _ => Err(ErrorView::WrongKind { expected: Kind::BigInt }),
    }
}

/// Whether `r` returns what `expected` says, errors compared by content.
pub open spec fn agrees<T>(r: YrsResult<T>, expected: Result<T, ErrorView>) -> bool {
    match expected {
        Ok(x) => r == Ok::<T, YrsWrapperError>(x),
        Err(e) => r matches Err(got) && got@ == e,
    }
}

/// Takes the primitive out of a cell, or says which kind was expected.
pub trait UnwrapAny {
    fn unwrap_any_bool(self) -> YrsResult<bool>;

    fn unwrap_any_bigint(self) -> YrsResult<i64>;

    fn unwrap_any_string(self) -> YrsResult<String>;
}

impl UnwrapAny for Value {
    fn unwrap_any_bool(self) -> (r: YrsResult<bool>)
        ensures
            agrees(r, decode_bool(self@)),
    {
        match self {
            Value::Bool(b) => Ok(b),
            _ => Err(YrsWrapperError::WrongKind { expected: Kind::Bool }),
        }
    }

    fn unwrap_any_bigint(self) -> (r: YrsResult<i64>)
        ensures
            agrees(r, decode_bigint(self@)),
    {
        match self {
            Value::BigInt(n) => Ok(n),
            _ => Err(YrsWrapperError::WrongKind { expected: Kind::BigInt }),
        }
    }

    fn unwrap_any_string(self) -> (r: YrsResult<String>)
        ensures
            match decode_string(self@) {
                Ok(s) => r matches Ok(got) && got@ == s,
                Err(e) => r matches Err(got) && got@ == e,
            },
    {
        match self {
            Value::Str(s) => Ok(s),
            _ => Err(YrsWrapperError::WrongKind { expected: Kind::String }),
        }
    }
}

/// The map node that `cell` is.
pub open spec fn decode_map(cell: Cell) -> Result<yrs::MapRef, ErrorView> {
    match cell {
        Cell::YMap(map) => Ok(map),
        _ => Err(ErrorView::ExpectedMap),
    }
}

/// The array node that `cell` is.
pub open spec fn decode_array(cell: Cell) -> Result<yrs::ArrayRef, ErrorView> {
    match cell {
        Cell::YArray(array) => Ok(array),
        _ => Err(ErrorView::ExpectedArray),
    }
}

/// The text node that `cell` is.
pub open spec fn decode_text(cell: Cell) -> Result<yrs::TextRef, ErrorView> {
    match cell {
        Cell::YText(text) => Ok(text),
        _ => Err(ErrorView::ExpectedText),
    }
}

/// Takes the node out of a cell, or says which kind of node was expected.
pub trait UnwrapYrsValue {
    fn unwrap_yrs_map(self) -> YrsResult<yrs::MapRef>;

    fn unwrap_yrs_text(self) -> YrsResult<yrs::TextRef>;

    fn unwrap_yrs_array(self) -> YrsResult<yrs::ArrayRef>;
}

impl UnwrapYrsValue for Value {
    fn unwrap_yrs_map(self) -> (r: YrsResult<yrs::MapRef>)
        ensures
            agrees(r, decode_map(self@)),
    {
        match self {
            Value::YMap(map) => Ok(map),
            _ => Err(YrsWrapperError::ExpectedMap),
        }
    }

    fn unwrap_yrs_text(self) -> (r: YrsResult<yrs::TextRef>)
        ensures
            agrees(r, decode_text(self@)),
    {
        match self {
            Value::YText(text) => Ok(text),
            _ => Err(YrsWrapperError::ExpectedText),
        }
    }

    fn unwrap_yrs_array(self) -> (r: YrsResult<yrs::ArrayRef>)
        ensures
            agrees(r, decode_array(self@)),
    {
        match self {
            Value::YArray(array) => Ok(array),
            _ => Err(YrsWrapperError::ExpectedArray),
        }
    }
}

/// A boolean that is about to be written.
#[derive(Clone, Copy, Debug)]
pub struct YBoolPrelim(pub bool);

/// A boolean that was read from the document.
#[derive(Clone, Copy, Debug)]
pub struct YBool(pub bool);

impl YBoolPrelim {
    pub fn new(value: bool) -> (p: Self)
        ensures
            p.0 == value,
    {
        YBoolPrelim(value)
    }
}

impl YBool {
    /// Decodes a boolean: it fails with [`YrsWrapperError::WrongKind`]
    /// exactly where the cell holds no boolean primitive.
    pub fn from_value(value: &Value) -> (r: YrsResult<YBool>)
        ensures
            match decode_bool(value@) {
                Ok(b) => r matches Ok(got) && got.0 == b,
                Err(e) => r matches Err(got) && got@ == e,
            },
    {
        match value {
            Value::Bool(b) => Ok(YBool(*b)),
            _ => Err(YrsWrapperError::WrongKind { expected: Kind::Bool }),
        }
    }

    pub fn get(&self) -> (b: bool)
        ensures
            b == self.0,
    {
        self.0
    }
}

/// A timestamp that is about to be written, in milliseconds since the Unix
/// epoch. It always has a date and time.
#[derive(Clone, Copy, Debug)]
pub struct YDateTimePrelim {
    millis: i64,
}

/// A timestamp that was read from the document, in milliseconds since the
/// Unix epoch. It always has a date and time.
#[derive(Clone, Copy, Debug)]
pub struct YDateTime {
    millis: i64,
}

impl YDateTimePrelim {
    #[verifier::type_invariant]
    spec fn inv(self) -> bool {
        timestamp_in_range(self.millis)
    }

    pub closed spec fn spec_millis(&self) -> i64 {
        self.millis
    }

    /// The timestamp for a count that is known to have, or to lack, a date
    /// and time.
    pub fn from_checked(millis: i64, in_range: bool) -> (r: Option<Self>)
        requires
            in_range == timestamp_in_range(millis),
        ensures
            r is Some <==> in_range,
            r matches Some(p) ==> p.spec_millis() == millis,
    {
        if in_range {
            Some(YDateTimePrelim { millis })
        } else {
            None
        }
    }

    /// The timestamp `millis` milliseconds after the Unix epoch, `None`
    /// where no date and time exists for it.
    pub fn from_timestamp_millis(millis: i64) -> (r: Option<Self>)
        ensures
            r is Some <==> timestamp_in_range(millis),
            r matches Some(p) ==> p.spec_millis() == millis,
    {
        Self::from_checked(millis, timestamp_representable(millis))
    }

    #[verifier::when_used_as_spec(spec_millis)]
    pub fn timestamp_millis(&self) -> (n: i64)
        ensures
            n == self.spec_millis(),
            timestamp_in_range(n),
    {
        proof {
            use_type_invariant(self);
        }
        self.millis
    }
}

impl YDateTime {
    #[verifier::type_invariant]
    spec fn inv(self) -> bool {
        timestamp_in_range(self.millis)
    }

    pub closed spec fn spec_millis(&self) -> i64 {
        self.millis
    }

    /// Decodes a timestamp from a cell, given whether a date and time exists
    /// for the count it holds (anything, where it holds no count).
    pub fn from_checked(value: &Value, in_range: bool) -> (r: YrsResult<YDateTime>)
        requires
            value@ matches Cell::BigInt(n) ==> in_range == timestamp_in_range(n),
        ensures
            match timestamp_of(value@, in_range) {
                Ok(n) => r matches Ok(got) && got.spec_millis() == n,
                Err(e) => r matches Err(got) && got@ == e,
            },
    {
        match value {
            Value::BigInt(n) => {
                if in_range {
                    Ok(YDateTime { millis: *n })
                } else {
                    Err(YrsWrapperError::ValueOutOfRange)
                }
            },
            _ => Err(YrsWrapperError::WrongKind { expected: Kind::BigInt }),
        }
    }

    /// Decodes a timestamp: it fails with [`YrsWrapperError::WrongKind`]
    /// exactly where the cell holds no integer primitive, and with
    /// [`YrsWrapperError::ValueOutOfRange`] exactly where it holds one for
    /// which no date and time exists.
    pub fn from_value(value: &Value) -> (r: YrsResult<YDateTime>)
        ensures
            match decode_datetime(value@) {
                Ok(n) => r matches Ok(got) && got.spec_millis() == n,
                Err(e) => r matches Err(got) && got@ == e,
            },
    {
        match value {
            Value::BigInt(n) => Self::from_checked(value, timestamp_representable(*n)),
            _ => Err(YrsWrapperError::WrongKind { expected: Kind::BigInt }),
        }
    }

    #[verifier::when_used_as_spec(spec_millis)]
    pub fn timestamp_millis(&self) -> (n: i64)
        ensures
            n == self.spec_millis(),
            timestamp_in_range(n),
    {
        proof {
            use_type_invariant(self);
        }
        self.millis
    }
}

/// A duration that is about to be written, in milliseconds. It is never the
/// least count, which has no negation.
#[derive(Clone, Copy, Debug)]
pub struct YDurationPrelim {
    millis: i64,
}

/// A duration that was read from the document, in milliseconds. It is never
/// the least count, which has no negation.
#[derive(Clone, Copy, Debug)]
pub struct YDuration {
    millis: i64,
}

impl YDurationPrelim {
    #[verifier::type_invariant]
    spec fn inv(self) -> bool {
        duration_in_range(self.millis)
    }

    pub closed spec fn spec_millis(&self) -> i64 {
        self.millis
    }

    /// The duration of `millis` milliseconds, `None` for the least count.
    pub fn milliseconds(millis: i64) -> (r: Option<Self>)
        ensures
            r is Some <==> duration_in_range(millis),
            r matches Some(p) ==> p.spec_millis() == millis,
    {
        if duration_representable(millis) {
            Some(YDurationPrelim { millis })
        } else {
            None
        }
    }

    #[verifier::when_used_as_spec(spec_millis)]
    pub fn num_milliseconds(&self) -> (n: i64)
        ensures
            n == self.spec_millis(),
            duration_in_range(n),
    {
        proof {
            use_type_invariant(self);
        }
        self.millis
    }
}

impl YDuration {
    #[verifier::type_invariant]
    spec fn inv(self) -> bool {
        duration_in_range(self.millis)
    }

    pub closed spec fn spec_millis(&self) -> i64 {
        self.millis
    }

    /// Decodes a duration: it fails with [`YrsWrapperError::WrongKind`]
    /// exactly where the cell holds no integer primitive, and with
    /// [`YrsWrapperError::ValueOutOfRange`] exactly where it holds the least
    /// count.
    pub fn from_value(value: &Value) -> (r: YrsResult<YDuration>)
        ensures
            match decode_duration(value@) {
                Ok(n) => r matches Ok(got) && got.spec_millis() == n,
                Err(e) => r matches Err(got) && got@ == e,
            },
    {
        match value {
            Value::BigInt(n) => {
                if duration_representable(*n) {
                    Ok(YDuration { millis: *n })
                } else {
                    Err(YrsWrapperError::ValueOutOfRange)
                }
            },
            _ => Err(YrsWrapperError::WrongKind { expected: Kind::BigInt }),
        }
    }

    #[verifier::when_used_as_spec(spec_millis)]
    pub fn num_milliseconds(&self) -> (n: i64)
        ensures
            n == self.spec_millis(),
            duration_in_range(n),
    {
        proof {
            use_type_invariant(self);
        }
        self.millis
    }
}

/// A text that was read from the document: a handle to its text node.
#[derive(Debug)]
pub struct YText {
    inner: yrs::TextRef,
}

impl Clone for YText {
    fn clone(&self) -> (r: Self)
        ensures
            r.node() == self.node(),
    {
        YText { inner: self.inner.clone() }
    }
}

impl YText {
    /// The text node that the handle points to.
    pub closed spec fn node(&self) -> yrs::TextRef {
        self.inner
    }

    /// The engine's handle of the text node.
    pub fn as_text_ref(&self) -> (text: &yrs::TextRef)
        ensures
            *text == self.node(),
    {
        &self.inner
    }

    /// The characters of the text as the transaction sees them.
    pub fn get_string<R: ReadTxn>(&self, txn: &R) -> (s: String)
        requires
            txn.view().texts.contains_key(self.node()),
        ensures
            s@ == txn.view().texts[self.node()],
    {
        txn.string(&self.inner)
    }
}

/// A UUID that is about to be written: its 16 bytes.
#[derive(Clone, Copy, Debug)]
pub struct YUuidPrelim(pub [u8; 16]);

/// A UUID that was read from the document: a handle to the text node that
/// holds its canonical text.
#[derive(Debug)]
pub struct YUuid {
    inner: yrs::TextRef,
}

impl Clone for YUuid {
    fn clone(&self) -> (r: Self)
        ensures
            r.node() == self.node(),
    {
        YUuid { inner: self.inner.clone() }
    }
}

impl YUuid {
    /// The text node that the handle points to.
    pub closed spec fn node(&self) -> yrs::TextRef {
        self.inner
    }

    /// The engine's handle of the text node.
    pub fn as_text_ref(&self) -> (text: &yrs::TextRef)
        ensures
            *text == self.node(),
    {
        &self.inner
    }

    /// The bytes of the UUID as the transaction sees it: `None` exactly
    /// where the node no longer holds the canonical text of a UUID.
    pub fn bytes<R: ReadTxn>(&self, txn: &R) -> (r: Option<[u8; 16]>)
        requires
            txn.view().texts.contains_key(self.node()),
        ensures
            match uuid_of(txn.view().texts[self.node()]) {
                Some(bytes) => r matches Some(got) && got@ == bytes,
                None => r is None,
            },
    {
        let text = txn.string(&self.inner);
        from_text(text.as_str())
    }
}

impl TryFromYrsValue for YUuid {
    open spec fn records() -> Seq<RecordView> {
        Seq::empty()
    }

    open spec fn field_type() -> FieldType {
        FieldType::Uuid
    }

    open spec fn cell(&self) -> Cell {
        Cell::YText(self.node())
    }

    fn schema() -> Schema {
        Schema::empty()
    }

    fn exec_field_type() -> FieldType {
        FieldType::Uuid
    }

    fn from_validated(value: Value) -> YUuid {
        match value {
            Value::YText(inner) => YUuid { inner },
            _ => unreached(),
        }
    }
}

impl ToPrelim for YUuidPrelim {
    type Return = YUuid;

    open spec fn model(&self) -> PrelimView {
        PrelimView::Uuid(self.0@)
    }

    open spec fn small(&self) -> bool {
        true
    }

    fn to_prelim(&self) -> Prelim {
        let p = Prelim::Uuid(self.0);
        p
    }
}

impl TryFromYrsValue for YBool {
    open spec fn records() -> Seq<RecordView> {
        Seq::empty()
    }

    open spec fn field_type() -> FieldType {
        FieldType::Bool
    }

    open spec fn cell(&self) -> Cell {
        Cell::Bool(self.0)
    }

    fn schema() -> Schema {
        Schema::empty()
    }

    fn exec_field_type() -> FieldType {
        FieldType::Bool
    }

    fn from_validated(value: Value) -> YBool {
        match value {
            Value::Bool(b) => YBool(b),
            _ => unreached(),
        }
    }
}

impl TryFromYrsValue for YDateTime {
    open spec fn records() -> Seq<RecordView> {
        Seq::empty()
    }

    open spec fn field_type() -> FieldType {
        FieldType::DateTime
    }

    open spec fn cell(&self) -> Cell {
        Cell::BigInt(self.spec_millis())
    }

    fn schema() -> Schema {
        Schema::empty()
    }

    fn exec_field_type() -> FieldType {
        FieldType::DateTime
    }

    fn from_validated(value: Value) -> YDateTime {
        match value {
            Value::BigInt(n) => YDateTime { millis: n },
            _ => unreached(),
        }
    }
}

impl TryFromYrsValue for YDuration {
    open spec fn records() -> Seq<RecordView> {
        Seq::empty()
    }

    open spec fn field_type() -> FieldType {
        FieldType::Duration
    }

    open spec fn cell(&self) -> Cell {
        Cell::BigInt(self.spec_millis())
    }

    fn schema() -> Schema {
        Schema::empty()
    }

    fn exec_field_type() -> FieldType {
        FieldType::Duration
    }

    fn from_validated(value: Value) -> YDuration {
        match value {
            Value::BigInt(n) => YDuration { millis: n },
            _ => unreached(),
        }
    }
}

impl TryFromYrsValue for YText {
    open spec fn records() -> Seq<RecordView> {
        Seq::empty()
    }

    open spec fn field_type() -> FieldType {
        FieldType::Text
    }

    open spec fn cell(&self) -> Cell {
        Cell::YText(self.node())
    }

    fn schema() -> Schema {
        Schema::empty()
    }

    fn exec_field_type() -> FieldType {
        FieldType::Text
    }

    fn from_validated(value: Value) -> YText {
        match value {
            Value::YText(inner) => YText { inner },
            _ => unreached(),
        }
    }
}

impl ToPrelim for YBoolPrelim {
    type Return = YBool;

    open spec fn model(&self) -> PrelimView {
        PrelimView::Bool(self.0)
    }

    open spec fn small(&self) -> bool {
        true
    }

    fn to_prelim(&self) -> Prelim {
        Prelim::Bool(self.0)
    }
}

impl ToPrelim for YDateTimePrelim {
    type Return = YDateTime;

    open spec fn model(&self) -> PrelimView {
        PrelimView::DateTime(self.spec_millis())
    }

    open spec fn small(&self) -> bool {
        true
    }

    fn to_prelim(&self) -> Prelim {
        Prelim::DateTime(self.timestamp_millis())
    }
}

impl ToPrelim for YDurationPrelim {
    type Return = YDuration;

    open spec fn model(&self) -> PrelimView {
        PrelimView::Duration(self.spec_millis())
    }

    open spec fn small(&self) -> bool {
        true
    }

    fn to_prelim(&self) -> Prelim {
        Prelim::Duration(self.num_milliseconds())
    }
}

impl ToPrelim for String {
    type Return = YText;

    open spec fn model(&self) -> PrelimView {
        PrelimView::Text(self@)
    }

    open spec fn small(&self) -> bool {
        true
    }

    fn to_prelim(&self) -> Prelim {
        let p = Prelim::Text(self.as_str().to_owned());
        assert(self.model() == PrelimView::Text(self@));
        p
    }
}

} // verus!
