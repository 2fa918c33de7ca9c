//! The wrapper that lets a schema type hold a value of its own type.
//!
//! It puts the value behind one allocation and adds nothing to the
//! document: a boxed value is written and read exactly as the value itself.

use crate::doc::{Cell, Value};
use crate::prelim::{Prelim, PrelimView, ToPrelim};
use crate::schema::{FieldType, RecordView, Schema};
use crate::try_from_yrs_value::TryFromYrsValue;
use vstd::prelude::*;

verus! {

/// A value behind one allocation.
#[derive(Debug)]
pub struct YBox<T>(pub Box<T>);

impl<T> YBox<T> {
    pub fn new(inner: T) -> (b: Self)
        ensures
            *b.0 == inner,
    {
        YBox(Box::new(inner))
    }

    /// The value itself: unwrapping loses nothing.
    pub fn into_inner(self) -> (inner: T)
        ensures
            inner == *self.0,
    {
        *self.0
    }

    /// The value, borrowed.
    pub fn get(&self) -> (inner: &T)
        ensures
            *inner == *self.0,
    {
        &*self.0
    }
}

impl<T: TryFromYrsValue> TryFromYrsValue for YBox<T> {
    open spec fn records() -> Seq<RecordView> {
        T::records()
    }

    open spec fn field_type() -> FieldType {
        T::field_type()
    }

    open spec fn cell(&self) -> Cell {
        self.0.cell()
    }

    fn schema() -> Schema {
        T::schema()
    }

    fn exec_field_type() -> FieldType {
        T::exec_field_type()
    }

    fn from_validated(value: Value) -> YBox<T> {
        YBox::new(T::from_validated(value))
    }
}

impl<P: ToPrelim> ToPrelim for YBox<P> {
    type Return = YBox<P::Return>;

    open spec fn model(&self) -> PrelimView {
        self.0.model()
    }

    open spec fn small(&self) -> bool {
        self.0.small()
    }

    fn to_prelim(&self) -> Prelim {
        self.0.to_prelim()
    }
}

} // verus!
