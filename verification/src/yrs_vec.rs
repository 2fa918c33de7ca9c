//! Typed collections over an array node.

use crate::doc::{doc_arrays, snapshot, Cell, Value};
use crate::materialize::{insert_outcome, insert_prelim, written, InsertError, Slot};
use crate::prelim::{conforms, Prelim, PrelimView, ToPrelim};
use crate::read_txn::ReadTxn;
use crate::schema::{FieldType, RecordView, Schema};
use crate::try_from_yrs_value::TryFromYrsValue;
use crate::yrs_struct::{check, check_items, validate};
use crate::yrs_wrapper_error::{YrsResult, YrsWrapperError};
use std::marker::PhantomData;
use vstd::pervasive::unreached;
use vstd::prelude::*;

verus! {

/// The elements of a collection that is about to be written, in order.
#[derive(Debug)]
pub struct YrsVecPrelim<P> {
    pub items: Vec<P>,
}

impl<P> YrsVecPrelim<P> {
    pub fn new(items: Vec<P>) -> (p: Self)
        ensures
            p.items == items,
    {
        YrsVecPrelim { items }
    }

    pub fn len(&self) -> (n: usize)
        ensures
            n == self.items@.len(),
    {
        self.items.len()
    }
}

impl<P: ToPrelim> ToPrelim for YrsVecPrelim<P> {
    type Return = YrsVec<P::Return>;

    open spec fn model(&self) -> PrelimView {
        PrelimView::List(Seq::new(self.items@.len(), |i: int| self.items@[i].model()))
    }

    open spec fn small(&self) -> bool {
        &&& self.items@.len() <= u32::MAX
        &&& forall|i: int| 0 <= i < self.items@.len() ==> (#[trigger] self.items@[i]).small()
    }

    fn to_prelim(&self) -> Prelim {
        let mut out: Vec<Prelim> = Vec::new();
        let mut i: usize = 0;
        while i < self.items.len()
            invariant
                i <= self.items.len(),
                out@.len() == i,
                forall|j: int| 0 <= j < i ==> (#[trigger] out@[j])@ == self.items@[j].model(),
                forall|j: int|
                    0 <= j < i && self.items@[j].small() ==> conforms(
                        P::Return::records(),
                        P::Return::field_type(),
                        (#[trigger] out@[j])@,
                    ),
            decreases self.items.len() - i,
        {
            out.push(self.items[i].to_prelim());
            i = i + 1;
        }
        let p = Prelim::List(out);
        proof {
            assert(p@->List_0 =~= self.model()->List_0);
        }
        p
    }
}

/// A collection of `T` that was read from the document: a handle to its
/// array node. Every access reads the node again and decodes what it finds.
#[derive(Debug)]
pub struct YrsVec<T> {
    inner: yrs::ArrayRef,
    phantom: PhantomData<T>,
}

impl<T: TryFromYrsValue> Clone for YrsVec<T> {
    fn clone(&self) -> (r: Self)
        ensures
            r.node() == self.node(),
    {
        YrsVec { inner: self.inner.clone(), phantom: PhantomData }
    }
}

impl<T: TryFromYrsValue> TryFromYrsValue for YrsVec<T> {
    open spec fn records() -> Seq<RecordView> {
        T::records()
    }

    open spec fn field_type() -> FieldType {
        FieldType::Collection(Box::new(T::field_type()))
    }

    open spec fn cell(&self) -> Cell {
        Cell::YArray(self.node())
    }

    fn schema() -> Schema {
        T::schema()
    }

    fn exec_field_type() -> FieldType {
        FieldType::Collection(Box::new(T::exec_field_type()))
    }

    fn from_validated(value: Value) -> YrsVec<T> {
        match value {
            Value::YArray(inner) => YrsVec { inner, phantom: PhantomData },
            _ => unreached(),
        }
    }
}

impl<T: TryFromYrsValue> YrsVec<T> {
    /// The array node that the handle points to.
    pub closed spec fn node(&self) -> yrs::ArrayRef {
        self.inner
    }

    /// The engine's handle of the array node.
    pub fn as_array_ref(&self) -> (array: &yrs::ArrayRef)
        ensures
            *array == self.node(),
    {
        &self.inner
    }

    /// The number of elements.
    pub fn len<R: ReadTxn>(&self, txn: &R) -> (n: u32)
        requires
            txn.view().arrays.contains_key(self.node()),
        ensures
            n == txn.view().arrays[self.node()].len(),
    {
        txn.length(&self.inner)
    }

    /// Whether the collection has no element.
    pub fn is_empty<R: ReadTxn>(&self, txn: &R) -> (b: bool)
        requires
            txn.view().arrays.contains_key(self.node()),
        ensures
            b == (txn.view().arrays[self.node()].len() == 0),
    {
        txn.length(&self.inner) == 0
    }

    /// The element at `index`, decoded: `Ok(None)` exactly where the index
    /// is not below the length, and an error exactly where the element is
    /// there and does not decode.
    pub fn get<R: ReadTxn>(&self, txn: &R, index: u32) -> (r: YrsResult<Option<T>>)
        requires
            txn.view().readable(Cell::YArray(self.node())),
            txn.view().arrays.contains_key(self.node()),
        ensures
            index >= txn.view().arrays[self.node()].len() ==> r matches Ok(None),
            index < txn.view().arrays[self.node()].len() ==> match check(
                txn.view(),
                T::records(),
                T::field_type(),
                txn.view().arrays[self.node()][index as int],
            ) {
                Ok(()) => r matches Ok(Some(x)) && x.cell()
                    == txn.view().arrays[self.node()][index as int],
                Err(e) => r matches Err(got) && got@ == e,
            },
    {
        match txn.element(&self.inner, index) {
            None => Ok(None),
            Some(v) => match T::try_from_yrs_value(v, txn) {
                Ok(x) => Ok(Some(x)),
                Err(e) => Err(e),
            },
        }
    }

    /// All elements, decoded, in order. It fails at the first element that
    /// does not decode, with the element's index and error.
    pub fn iter<R: ReadTxn>(&self, txn: &R) -> (r: YrsResult<Vec<T>>)
        requires
            txn.view().readable(Cell::YArray(self.node())),
            txn.view().arrays.contains_key(self.node()),
        ensures
            match check_items(txn.view(), T::records(), T::field_type(), self.node(), 0) {
                Ok(()) => r matches Ok(xs) && xs@.len() == txn.view().arrays[self.node()].len()
                    && forall|i: int|
                    0 <= i < xs@.len() ==> (#[trigger] xs@[i]).cell()
                        == txn.view().arrays[self.node()][i],
                Err(e) => r matches Err(got) && got@ == e,
            },
    {
        let ghost d = txn.view();
        let ghost cells = d.arrays[self.node()];
        let schema = T::schema();
        let ty = T::exec_field_type();
        let items = txn.elements(&self.inner);
        let mut i: usize = 0;
        while i < items.len()
            invariant
                i <= items@.len() == cells.len() <= u32::MAX,
                d == txn.view(),
                d.readable(Cell::YArray(self.node())),
                cells == d.arrays[self.node()],
                schema@ == T::records(),
                ty == T::field_type(),
                ty.closed(T::records().len()),
                forall|j: int|
                    0 <= j < items@.len() ==> (#[trigger] items@[j])@ == cells[j] && d.child_ok(
                        Cell::YArray(self.node()),
                        items@[j]@,
                    ),
                forall|j: int| 0 <= j < i ==> check(d, schema@, ty, #[trigger] cells[j]) is Ok,
                check_items(d, schema@, ty, self.node(), 0) == check_items(
                    d,
                    schema@,
                    ty,
                    self.node(),
                    i as nat,
                ),
            decreases items.len() - i,
        {
            match validate(&schema, &ty, &items[i], txn) {
                Err(e) => {
                    return Err(
                        YrsWrapperError::ElementDecode { index: i as u32, cause: Box::new(e) },
                    );
                },
                Ok(()) => {},
            }
            i = i + 1;
        }
        let ghost values = items@;
        let mut out: Vec<T> = Vec::new();
        for v in it: items.into_iter()
            invariant
                it.seq() == values,
                values.len() == cells.len(),
                ty == T::field_type(),
                forall|j: int| 0 <= j < values.len() ==> (#[trigger] values[j])@ == cells[j],
                forall|j: int|
                    0 <= j < cells.len() ==> check(d, T::records(), ty, #[trigger] cells[j]) is Ok,
                out@.len() == it.index(),
                forall|j: int| 0 <= j < out@.len() ==> (#[trigger] out@[j]).cell() == cells[j],
        {
            out.push(T::from_validated(v));
        }
        Ok(out)
    }

    /// Writes `value` as a new element at `index` and returns it, read back.
    /// A value with an overlong collection, an index beyond the end and a
    /// full node are refused, and the document stays as it is. A node with
    /// an unreadable element must not be written into.
    pub fn insert<P: ToPrelim<Return = T>>(
        &self,
        txn: &mut yrs::TransactionMut<'_>,
        index: u32,
        value: P,
    ) -> (r: Result<T, InsertError>)
        requires
            doc_arrays(*old(txn)).contains_key(self.node()),
            snapshot(*old(txn)).elements_readable(self.node()),
        ensures
            value.small() ==> conforms(T::records(), T::field_type(), value.model()),
            match insert_outcome(
                snapshot(*old(txn)),
                T::records(),
                T::field_type(),
                value.model(),
                Slot::Index(&self.node(), index),
            ) {
                Ok(()) => r matches Ok(x) && written(
                    snapshot(*old(txn)),
                    snapshot(*final(txn)),
                    T::records(),
                    T::field_type(),
                    value.model(),
                    Slot::Index(&self.node(), index),
                    x.cell(),
                ),
                Err(e) => r == Err::<T, InsertError>(e) && *final(txn) == *old(txn),
            },
    {
        let slot = Slot::Index(&self.inner, index);
        insert_prelim(value, &slot, txn)
    }
}

} // verus!
