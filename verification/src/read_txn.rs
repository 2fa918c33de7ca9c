//! Reading through either kind of transaction.
//!
//! The engine reads a document through a read-only transaction, of which
//! there may be many at a time, and through a read-write transaction. What
//! reads the document in this crate takes either, by this trait.
//!
//! The engine fails on what it does not hand out as one value, and offers
//! no way to tell it first. So an entry must not be asked for where it is
//! unreadable, nor an element of an array node that has an unreadable
//! element: see [`DocView::readable`].

use crate::doc::{
    array_get,
    array_get_shared,
    array_len,
    array_len_shared,
    array_values,
    array_values_shared,
    doc_roots,
    map_get,
    map_get_shared,
    map_has,
    map_has_shared,
    root_map,
    root_map_shared,
    shared_roots,
    shared_snapshot,
    snapshot,
    text_string,
    text_string_shared,
    Cell,
    DocView,
    Value,
};
use vstd::prelude::*;

verus! {

/// A transaction that a document can be read through.
pub trait ReadTxn {
    /// The state of the document as the transaction sees it.
    spec fn view(&self) -> DocView;

    /// The root nodes of the document by name, each taken as a map node.
    spec fn roots(&self) -> Map<Seq<char>, yrs::MapRef>;

    /// The root node that the document holds under `name`, taken as a map
    /// node: `None` exactly where the document has no root of that name. A
    /// node that comes back belongs to the document.
    fn root(&self, name: &str) -> (r: Option<yrs::MapRef>)
        ensures
            r is Some <==> self.roots().contains_key(name@),
            r matches Some(m) ==> m == self.roots()[name@] && self.view().maps.contains_key(m),
    ;

    /// Whether a map node of the document has an entry under `key`,
    /// readable or not.
    fn has_entry(&self, map: &yrs::MapRef, key: &str) -> (b: bool)
        requires
            self.view().maps.contains_key(*map),
        ensures
            b == self.view().maps[*map].contains_key(key@),
    ;

    /// The entry of a live map node under `key` as it stands, not validated:
    /// `None` exactly where the node has no such entry. An entry that is
    /// unreadable must not be asked for. What comes back is live and lies
    /// lower in the document than the node.
    fn entry(&self, map: &yrs::MapRef, key: &str) -> (r: Option<Value>)
        requires
            self.view().maps.contains_key(*map),
            self.view().maps[*map].contains_key(key@) ==> !(self.view().maps[*map][key@]
                is Unreadable),
        ensures
            r is Some <==> self.view().maps[*map].contains_key(key@),
            r matches Some(v) ==> v@ == self.view().maps[*map][key@] && self.view().child_ok(
                Cell::YMap(*map),
                v@,
            ),
    ;

    /// The number of elements of a live array node.
    fn length(&self, array: &yrs::ArrayRef) -> (n: u32)
        requires
            self.view().arrays.contains_key(*array),
        ensures
            n == self.view().arrays[*array].len(),
    ;

    /// The element of a live array node at `index` as it stands, not
    /// validated: `None` exactly where the index is not below the node's
    /// length. An array with an unreadable element must not be asked for,
    /// whatever the index. What comes back is live and lies lower in the
    /// document than the node.
    fn element(&self, array: &yrs::ArrayRef, index: u32) -> (r: Option<Value>)
        requires
            self.view().arrays.contains_key(*array),
            self.view().elements_readable(*array),
        ensures
            r is Some <==> index < self.view().arrays[*array].len(),
            r matches Some(v) ==> v@ == self.view().arrays[*array][index as int]
                && self.view().child_ok(Cell::YArray(*array), v@),
    ;

    /// The elements of a live array node as they stand, in order and not
    /// validated. An array with an unreadable element must not be asked
    /// for. Each element is live and lies lower in the document than the
    /// node.
    fn elements(&self, array: &yrs::ArrayRef) -> (r: Vec<Value>)
        requires
            self.view().arrays.contains_key(*array),
            self.view().elements_readable(*array),
        ensures
            r@.len() == self.view().arrays[*array].len() <= u32::MAX,
            forall|i: int|
                0 <= i < r@.len() ==> (#[trigger] r@[i])@ == self.view().arrays[*array][i]
                    && self.view().child_ok(Cell::YArray(*array), r@[i]@),
    ;

    /// The characters of a live text node, in order.
    fn string(&self, text: &yrs::TextRef) -> (s: String)
        requires
            self.view().texts.contains_key(*text),
        ensures
            s@ == self.view().texts[*text],
    ;
}

impl<'doc> ReadTxn for yrs::TransactionMut<'doc> {
    open spec fn view(&self) -> DocView {
        snapshot(*self)
    }

    open spec fn roots(&self) -> Map<Seq<char>, yrs::MapRef> {
        doc_roots(*self)
    }

    fn root(&self, name: &str) -> (r: Option<yrs::MapRef>) {
        root_map(self, name)
    }

    fn has_entry(&self, map: &yrs::MapRef, key: &str) -> (b: bool) {
        map_has(map, self, key)
    }

    fn entry(&self, map: &yrs::MapRef, key: &str) -> (r: Option<Value>) {
        map_get(map, self, key)
    }

    fn length(&self, array: &yrs::ArrayRef) -> (n: u32) {
        array_len(array, self)
    }

    fn element(&self, array: &yrs::ArrayRef, index: u32) -> (r: Option<Value>) {
        array_get(array, self, index)
    }

    fn elements(&self, array: &yrs::ArrayRef) -> (r: Vec<Value>) {
        array_values(array, self)
    }

    fn string(&self, text: &yrs::TextRef) -> (s: String) {
        text_string(text, self)
    }
}

impl<'doc> ReadTxn for yrs::Transaction<'doc> {
    open spec fn view(&self) -> DocView {
        shared_snapshot(*self)
    }

    open spec fn roots(&self) -> Map<Seq<char>, yrs::MapRef> {
        shared_roots(*self)
    }

    fn root(&self, name: &str) -> (r: Option<yrs::MapRef>) {
        root_map_shared(self, name)
    }

    fn has_entry(&self, map: &yrs::MapRef, key: &str) -> (b: bool) {
        map_has_shared(map, self, key)
    }

    fn entry(&self, map: &yrs::MapRef, key: &str) -> (r: Option<Value>) {
        map_get_shared(map, self, key)
    }

    fn length(&self, array: &yrs::ArrayRef) -> (n: u32) {
        array_len_shared(array, self)
    }

    fn element(&self, array: &yrs::ArrayRef, index: u32) -> (r: Option<Value>) {
        array_get_shared(array, self, index)
    }

    fn elements(&self, array: &yrs::ArrayRef) -> (r: Vec<Value>) {
        array_values_shared(array, self)
    }

    fn string(&self, text: &yrs::TextRef) -> (s: String) {
        text_string_shared(text, self)
    }
}

} // verus!
