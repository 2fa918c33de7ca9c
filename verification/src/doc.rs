//! The boundary to the CRDT engine.
//!
//! The engine's transactions and node handles are opaque here. What a
//! transaction shows of its document is named by four maps and by the set
//! of the nodes that have left it, gathered in [`DocView`], and by the table
//! of its roots, and every call into the engine is a small function whose
//! contract says, over those, what the engine's source shows of the call.
//! Nothing in this file is proved: the rest of the crate is proved from it.
//!
//! A peer's update can leave in a document what the engine fails on, or
//! what leads it from one node into another: see [`Cell::Unreadable`]. In
//! what a transaction shows, each of these is an unreadable entry or
//! element, and the calls leave out what they would touch of it. The nodes
//! of a document, its live nodes, are its roots and every nested node that
//! stands in a node of the document as an entry or an element that is not
//! unreadable.

use lib0::any::Any;
use vstd::prelude::*;
use yrs::types::Value as YValue;

verus! {

#[verifier::external_type_specification]
#[verifier::external_body]
pub struct ExMapRef(yrs::MapRef);

#[verifier::external_type_specification]
#[verifier::external_body]
pub struct ExArrayRef(yrs::ArrayRef);

#[verifier::external_type_specification]
#[verifier::external_body]
pub struct ExTextRef(yrs::TextRef);

#[verifier::external_type_specification]
#[verifier::external_body]
pub struct ExTransactionMut<'doc>(yrs::TransactionMut<'doc>);

#[verifier::external_type_specification]
#[verifier::external_body]
pub struct ExTransaction<'doc>(yrs::Transaction<'doc>);

/// What one cell of a map node or of an array node holds, with handles for
/// nested nodes.
#[derive(Debug)]
pub enum Value {
    Bool(bool),
    BigInt(i64),
    Str(String),
    /// A primitive of a kind that no codec of this crate reads.
    OtherAny,
    YText(yrs::TextRef),
    YArray(yrs::ArrayRef),
    YMap(yrs::MapRef),
    /// A shared node of a kind that no codec of this crate reads.
    Other,
}

/// The mathematical content of a [`Value`].
pub enum Cell {
    Bool(bool),
    BigInt(i64),
    Str(Seq<char>),
    OtherAny,
    YText(yrs::TextRef),
    YArray(yrs::ArrayRef),
    YMap(yrs::MapRef),
    Other,
    /// What the engine does not hand out as one value, or does not treat as
    /// a node of its own. A peer's update can leave each of these:
    /// - a nested node of a kind that the engine has no value for: it knows
    ///   maps, arrays, texts and three kinds of XML nodes, and fails where
    ///   it is asked to hand out a node of another kind;
    /// - a unit of a string item in an array node: the engine counts the
    ///   units of such an item in one way for the node's length and in
    ///   another where it walks the node, and where the two differ a read
    ///   or a walk does not come to an end;
    /// - a live item under a key of a map node that holds no value;
    /// - a nested node in which, or in a node below which, an item is a
    ///   move or has been moved: the engine follows a move from node to
    ///   node, so that walking, writing into or deleting such a node
    ///   reaches others.
    ///
    /// No [`Value`] has this content.
    Unreadable,
}

impl View for Value {
    type V = Cell;

    open spec fn view(&self) -> Cell {
        match self {
            Value::Bool(b) => Cell::Bool(*b),
            Value::BigInt(n) => Cell::BigInt(*n),
            Value::Str(s) => Cell::Str(s@),
            Value::OtherAny => Cell::OtherAny,
            Value::YText(t) => Cell::YText(*t),
            Value::YArray(a) => Cell::YArray(*a),
            Value::YMap(m) => Cell::YMap(*m),
            Value::Other => Cell::Other,
        }
    }
}

/// The entries of every map node of the transaction's document, by node: one
/// under each key under which the node holds a live item.
pub uninterp spec fn doc_maps(txn: yrs::TransactionMut<'_>) -> Map<
    yrs::MapRef,
    Map<Seq<char>, Cell>,
>;

/// The elements of every array node of the transaction's document, by
/// node: as many as the engine gives as the node's length, one for each
/// unit of each item, in the order in which the engine walks the node.
pub uninterp spec fn doc_arrays(txn: yrs::TransactionMut<'_>) -> Map<yrs::ArrayRef, Seq<Cell>>;

/// The characters of every text node of the transaction's document, by node.
pub uninterp spec fn doc_texts(txn: yrs::TransactionMut<'_>) -> Map<yrs::TextRef, Seq<char>>;

/// For every cell, its height in the document: nothing for what is no node
/// of the document, and for a node one more than the greatest height of
/// what it holds. The engine keeps each node in the item of one parent, so
/// that the nodes of a document form a forest and every node has such a
/// height.
pub uninterp spec fn doc_heights(txn: yrs::TransactionMut<'_>) -> Map<Cell, nat>;

/// The nodes that are nodes of the transaction's document no more: each was
/// one at some time since the transaction began. A node that the engine
/// makes is never one of them.
pub uninterp spec fn doc_gone(txn: yrs::TransactionMut<'_>) -> Set<Cell>;

/// The root nodes of the transaction's document by name, each taken as a map
/// node.
pub uninterp spec fn doc_roots(txn: yrs::TransactionMut<'_>) -> Map<Seq<char>, yrs::MapRef>;

/// The entries of every map node of the document that a read-only
/// transaction sees, by node.
pub uninterp spec fn shared_maps(txn: yrs::Transaction<'_>) -> Map<
    yrs::MapRef,
    Map<Seq<char>, Cell>,
>;

/// The elements of every array node of the document that a read-only
/// transaction sees, by node: as many as the engine gives as the node's
/// length, one for each unit of each item, in the order in which the engine
/// walks the node.
pub uninterp spec fn shared_arrays(txn: yrs::Transaction<'_>) -> Map<yrs::ArrayRef, Seq<Cell>>;

/// The characters of every text node of the document that a read-only
/// transaction sees, by node.
pub uninterp spec fn shared_texts(txn: yrs::Transaction<'_>) -> Map<yrs::TextRef, Seq<char>>;

/// For every cell, its height in the document that a read-only transaction
/// sees: nothing for what is no node of the document, and for a node one
/// more than the greatest height of what it holds.
pub uninterp spec fn shared_heights(txn: yrs::Transaction<'_>) -> Map<Cell, nat>;

/// The root nodes of the document that a read-only transaction sees by
/// name, each taken as a map node.
pub uninterp spec fn shared_roots(txn: yrs::Transaction<'_>) -> Map<Seq<char>, yrs::MapRef>;

/// The state of a document as one transaction sees it.
pub struct DocView {
    pub maps: Map<yrs::MapRef, Map<Seq<char>, Cell>>,
    pub arrays: Map<yrs::ArrayRef, Seq<Cell>>,
    pub texts: Map<yrs::TextRef, Seq<char>>,
    pub heights: Map<Cell, nat>,
    /// Nodes that have left the document. A read-only transaction tells of
    /// none.
    pub gone: Set<Cell>,
}

/// The state of the document that a read-write transaction sees.
pub open spec fn snapshot(txn: yrs::TransactionMut<'_>) -> DocView {
    DocView {
        maps: doc_maps(txn),
        arrays: doc_arrays(txn),
        texts: doc_texts(txn),
        heights: doc_heights(txn),
        gone: doc_gone(txn),
    }
}

/// The state of the document that a read-only transaction sees.
pub open spec fn shared_snapshot(txn: yrs::Transaction<'_>) -> DocView {
    DocView {
        maps: shared_maps(txn),
        arrays: shared_arrays(txn),
        texts: shared_texts(txn),
        heights: shared_heights(txn),
        gone: Set::empty(),
    }
}

impl DocView {
    /// A document without any node.
    pub open spec fn empty() -> DocView {
        DocView {
            maps: Map::empty(),
            arrays: Map::empty(),
            texts: Map::empty(),
            heights: Map::empty(),
            gone: Set::empty(),
        }
    }

    /// `cell` is a primitive, or a node of this document.
    pub open spec fn live(self, cell: Cell) -> bool {
        match cell {
            Cell::YText(t) => self.texts.contains_key(t),
            Cell::YArray(a) => self.arrays.contains_key(a),
            Cell::YMap(m) => self.maps.contains_key(m),
            _ => true,
        }
    }

    /// `cell` is a node of this document.
    pub open spec fn has_node(self, cell: Cell) -> bool {
        match cell {
            Cell::YText(t) => self.texts.contains_key(t),
            Cell::YArray(a) => self.arrays.contains_key(a),
            Cell::YMap(m) => self.maps.contains_key(m),
            _ => false,
        }
    }

    /// `child` may stand in the node `parent`: it is live and lies lower.
    pub open spec fn child_ok(self, parent: Cell, child: Cell) -> bool {
        self.live(child) && self.heights[child] < self.heights[parent]
    }

    /// The document is a forest: what a live node holds is live and lies
    /// lower than the node, and no array is longer than its index type allows.
    pub open spec fn well_formed(self) -> bool {
        &&& forall|m: yrs::MapRef, k: Seq<char>|
            self.maps.contains_key(m) && self.maps[m].contains_key(k) ==> self.child_ok(
                Cell::YMap(m),
                #[trigger] self.maps[m][k],
            )
        &&& forall|a: yrs::ArrayRef, i: int|
            self.arrays.contains_key(a) && 0 <= i < self.arrays[a].len() ==> self.child_ok(
                Cell::YArray(a),
                #[trigger] self.arrays[a][i],
            )
        &&& forall|a: yrs::ArrayRef| #[trigger]
            self.arrays.contains_key(a) ==> self.arrays[a].len() <= u32::MAX
    }

    /// No element of the array node `array` is unreadable.
    pub open spec fn elements_readable(self, array: yrs::ArrayRef) -> bool {
        forall|i: int|
            0 <= i < self.arrays[array].len() ==> !(#[trigger] self.arrays[array][i]
                is Unreadable)
    }

    /// What stands at or below `cell` can be read: `cell` is not
    /// unreadable, and what a node at or below it holds is live, lies lower
    /// than the node and is not unreadable.
    pub open spec fn readable(self, cell: Cell) -> bool
        decreases self.heights[cell],
    {
        match cell {
            Cell::Unreadable => false,
            Cell::YMap(m) => forall|k: Seq<char>|
                self.maps[m].contains_key(k) ==> {
                    &&& !(#[trigger] self.maps[m][k] is Unreadable)
                    &&& self.child_ok(cell, self.maps[m][k])
                    &&& self.readable(self.maps[m][k])
                },
            Cell::YArray(a) => forall|i: int|
                0 <= i < self.arrays[a].len() ==> {
                    &&& !(#[trigger] self.arrays[a][i] is Unreadable)
                    &&& self.child_ok(cell, self.arrays[a][i])
                    &&& self.readable(self.arrays[a][i])
                },
            _ => true,
        }
    }

    /// `cell` is `top`, or stands in a node at or below `top`.
    pub open spec fn under(self, top: Cell, cell: Cell) -> bool
        decreases self.heights[top],
    {
        cell == top || match top {
            Cell::YMap(m) => exists|k: Seq<char>|
                self.maps[m].contains_key(k) && self.heights[#[trigger] self.maps[m][k]]
                    < self.heights[top] && self.under(self.maps[m][k], cell),
            Cell::YArray(a) => exists|i: int|
                0 <= i < self.arrays[a].len() && self.heights[#[trigger] self.arrays[a][i]]
                    < self.heights[top] && self.under(self.arrays[a][i], cell),
            _ => false,
        }
    }

    /// This document after `top` was deleted with everything below it: the
    /// nodes at or below `top` are nodes no more, and every other node holds
    /// what it held.
    pub open spec fn cleared(self, top: Cell) -> DocView {
        DocView {
            maps: Map::new(
                |m: yrs::MapRef| self.maps.contains_key(m) && !self.under(top, Cell::YMap(m)),
                |m: yrs::MapRef| self.maps[m],
            ),
            arrays: Map::new(
                |a: yrs::ArrayRef| self.arrays.contains_key(a) && !self.under(top, Cell::YArray(a)),
                |a: yrs::ArrayRef| self.arrays[a],
            ),
            texts: Map::new(
                |t: yrs::TextRef| self.texts.contains_key(t) && !self.under(top, Cell::YText(t)),
                |t: yrs::TextRef| self.texts[t],
            ),
            heights: self.heights,
            gone: self.gone,
        }
    }

    /// The nodes that leave where `top` is deleted with everything below it.
    pub open spec fn leaving(self, top: Cell) -> Set<Cell> {
        Set::new(|n: Cell| self.has_node(n) && self.under(top, n))
    }

    /// This document with one more node for `cell`: empty for a map or an
    /// array, holding `text` for a text. A primitive adds nothing.
    pub open spec fn opened(self, cell: Cell, text: Seq<char>) -> DocView {
        match cell {
            Cell::YText(t) => DocView { texts: self.texts.insert(t, text), ..self },
            Cell::YArray(a) => DocView { arrays: self.arrays.insert(a, Seq::empty()), ..self },
            Cell::YMap(m) => DocView { maps: self.maps.insert(m, Map::empty()), ..self },
            _ => self,
        }
    }
}

/// `post` is `pre` after `cell` was filed under `key` in the map node `map`:
/// a node that `cell` names is new, never having been a node before, and
/// starts out as [`DocView::opened`] says, and no other node has changed.
pub open spec fn map_gains(
    pre: DocView,
    post: DocView,
    map: yrs::MapRef,
    key: Seq<char>,
    cell: Cell,
    text: Seq<char>,
) -> bool {
    let mid = pre.opened(cell, text);
    &&& !pre.has_node(cell)
    &&& !pre.gone.contains(cell)
    &&& post.maps == mid.maps.insert(map, pre.maps[map].insert(key, cell))
    &&& post.arrays == mid.arrays
    &&& post.texts == mid.texts
    &&& post.gone == pre.gone
    &&& post.well_formed()
}

/// `post` is `pre` after `cell` took the place of the entry under `key` in
/// the map node `map`: what stood there has left with everything below it,
/// as [`DocView::cleared`] says, and is gone from then on, a node that `cell`
/// names is new, never having been a node before, and starts out as
/// [`DocView::opened`] says, and no other node has changed.
pub open spec fn map_replaces(
    pre: DocView,
    post: DocView,
    map: yrs::MapRef,
    key: Seq<char>,
    cell: Cell,
    text: Seq<char>,
) -> bool {
    let mid = pre.cleared(pre.maps[map][key]).opened(cell, text);
    &&& !pre.has_node(cell)
    &&& !pre.gone.contains(cell)
    &&& post.maps == mid.maps.insert(map, pre.maps[map].insert(key, cell))
    &&& post.arrays == mid.arrays
    &&& post.texts == mid.texts
    &&& post.gone == pre.gone.union(pre.leaving(pre.maps[map][key]))
    &&& post.well_formed()
}

/// `post` is `pre` after `cell` was written under `key` in the map node
/// `map`: see [`map_gains`] for a key that the node did not have and
/// [`map_replaces`] for one that it had.
pub open spec fn map_puts(
    pre: DocView,
    post: DocView,
    map: yrs::MapRef,
    key: Seq<char>,
    cell: Cell,
    text: Seq<char>,
) -> bool {
    if pre.maps[map].contains_key(key) {
        map_replaces(pre, post, map, key, cell, text)
    } else {
        map_gains(pre, post, map, key, cell, text)
    }
}

/// `post` is `pre` after `cell` was inserted at `index` into the array node
/// `array`: a node that `cell` names is new, never having been a node
/// before, and starts out as [`DocView::opened`] says, and no other node has
/// changed.
pub open spec fn array_gains(
    pre: DocView,
    post: DocView,
    array: yrs::ArrayRef,
    index: int,
    cell: Cell,
    text: Seq<char>,
) -> bool {
    let mid = pre.opened(cell, text);
    &&& !pre.has_node(cell)
    &&& !pre.gone.contains(cell)
    &&& post.maps == mid.maps
    &&& post.arrays == mid.arrays.insert(array, pre.arrays[array].insert(index, cell))
    &&& post.texts == mid.texts
    &&& post.gone == pre.gone
    &&& post.well_formed()
}

/// A key can be written in `map`: the node is a node of the document, and
/// what stands under the key, if anything, is not unreadable. The engine
/// deletes what stood there with everything below it.
pub open spec fn key_usable(d: DocView, map: yrs::MapRef, key: Seq<char>) -> bool {
    d.maps.contains_key(map) && (d.maps[map].contains_key(key) ==> !(d.maps[map][key]
        is Unreadable))
}

/// A key may be written in `map`: the node is live and has no such entry.
pub open spec fn key_free(d: DocView, map: yrs::MapRef, key: Seq<char>) -> bool {
    d.maps.contains_key(map) && !d.maps[map].contains_key(key)
}

/// An element may be inserted at `index` of `array`: the node is live, the
/// index is at most its length, and there is room for one more element.
pub open spec fn index_free(d: DocView, array: yrs::ArrayRef, index: int) -> bool {
    d.arrays.contains_key(array) && 0 <= index <= d.arrays[array].len() < u32::MAX
}

/// `Clone::clone` of a map node's handle: another handle to the same node.
pub assume_specification[ <yrs::MapRef as Clone>::clone ](node: &yrs::MapRef) -> (r: yrs::MapRef)
    ensures
        r == *node,
;

/// `Clone::clone` of an array node's handle: another handle to the same
/// node.
pub assume_specification[ <yrs::ArrayRef as Clone>::clone ](node: &yrs::ArrayRef) -> (r:
    yrs::ArrayRef)
    ensures
        r == *node,
;

/// `Clone::clone` of a text node's handle: another handle to the same node.
pub assume_specification[ <yrs::TextRef as Clone>::clone ](node: &yrs::TextRef) -> (r:
    yrs::TextRef)
    ensures
        r == *node,
;

/// `yrs::ReadTxn::get_map`: the root node that the document holds under
/// `name`, taken as a map node, and `None` exactly where it holds no root of
/// that name. A node that comes back belongs to the document.
#[verifier::external_body]
pub(crate) fn root_map(txn: &yrs::TransactionMut<'_>, name: &str) -> (r: Option<yrs::MapRef>)
    ensures
        r is Some <==> doc_roots(*txn).contains_key(name@),
        r matches Some(m) ==> m == doc_roots(*txn)[name@],
        r matches Some(m) ==> doc_maps(*txn).contains_key(m),
{
    yrs::ReadTxn::get_map(txn, name)
}

/// `yrs::Map::get`: the entry of a live map node under `key`, `None` where
/// the node has no such entry. The engine fails on an entry that is a node
/// of a kind it does not hand out, so such an entry is left out. What comes
/// back is live in the document and lies lower in it than the node.
#[verifier::external_body]
pub(crate) fn map_get(map: &yrs::MapRef, txn: &yrs::TransactionMut<'_>, key: &str) -> (r: Option<
    Value,
>)
    requires
        doc_maps(*txn).contains_key(*map),
        doc_maps(*txn)[*map].contains_key(key@) ==> !(doc_maps(*txn)[*map][key@] is Unreadable),
    ensures
        r is Some <==> doc_maps(*txn)[*map].contains_key(key@),
        r matches Some(v) ==> v@ == doc_maps(*txn)[*map][key@],
        r matches Some(v) ==> snapshot(*txn).live(v@),
        r matches Some(v) ==> doc_heights(*txn)[v@] < doc_heights(*txn)[Cell::YMap(*map)],
{
    Some(
        match yrs::Map::get(map, txn, key)? {
            YValue::Any(Any::Bool(b)) => Value::Bool(b),
            YValue::Any(Any::BigInt(n)) => Value::BigInt(n),
            YValue::Any(Any::String(s)) => Value::Str(s.into()),
            YValue::Any(_) => Value::OtherAny,
            YValue::YText(t) => Value::YText(t),
            YValue::YArray(a) => Value::YArray(a),
            YValue::YMap(m) => Value::YMap(m),
            _ => Value::Other,
        },
    )
}

/// `yrs::Map::contains_key`: whether a map node of the document has an
/// entry under `key`, readable or not.
#[verifier::external_body]
pub(crate) fn map_has(map: &yrs::MapRef, txn: &yrs::TransactionMut<'_>, key: &str) -> (b: bool)
    requires
        doc_maps(*txn).contains_key(*map),
    ensures
        b == doc_maps(*txn)[*map].contains_key(key@),
{
    yrs::Map::contains_key(map, txn, key)
}

/// `yrs::Array::len`: the number of elements of a live array node.
#[verifier::external_body]
pub(crate) fn array_len(array: &yrs::ArrayRef, txn: &yrs::TransactionMut<'_>) -> (n: u32)
    requires
        doc_arrays(*txn).contains_key(*array),
    ensures
        n == doc_arrays(*txn)[*array].len(),
{
    yrs::Array::len(array, txn)
}

/// `yrs::Array::get`: the element of a live array node at `index`, `None`
/// exactly where the index is not below the node's length. The engine walks
/// the node up to the index and may fail or not come to an end on what it
/// does not hand out as one value, so an array with an unreadable element is
/// left out, whatever the index. What comes back is live in the document
/// and lies lower in it than the node.
#[verifier::external_body]
pub(crate) fn array_get(array: &yrs::ArrayRef, txn: &yrs::TransactionMut<'_>, index: u32) -> (r:
    Option<Value>)
    requires
        doc_arrays(*txn).contains_key(*array),
        snapshot(*txn).elements_readable(*array),
    ensures
        r is Some <==> index < doc_arrays(*txn)[*array].len(),
        r matches Some(v) ==> v@ == doc_arrays(*txn)[*array][index as int],
        r matches Some(v) ==> snapshot(*txn).live(v@),
        r matches Some(v) ==> doc_heights(*txn)[v@] < doc_heights(*txn)[Cell::YArray(*array)],
{
    Some(
        match yrs::Array::get(array, txn, index)? {
            YValue::Any(Any::Bool(b)) => Value::Bool(b),
            YValue::Any(Any::BigInt(n)) => Value::BigInt(n),
            YValue::Any(Any::String(s)) => Value::Str(s.into()),
            YValue::Any(_) => Value::OtherAny,
            YValue::YText(t) => Value::YText(t),
            YValue::YArray(a) => Value::YArray(a),
            YValue::YMap(m) => Value::YMap(m),
            _ => Value::Other,
        },
    )
}

/// `yrs::Array::iter`, run to its end: the elements of a live array node,
/// in order, of which there are as many as its 32-bit length says. The
/// engine may fail or not come to an end on what it does not hand out as one
/// value, so an array with an unreadable element is left out. Each element
/// is live in the document and lies lower in it than the node.
#[verifier::external_body]
pub(crate) fn array_values(array: &yrs::ArrayRef, txn: &yrs::TransactionMut<'_>) -> (r: Vec<Value>)
    requires
        doc_arrays(*txn).contains_key(*array),
        snapshot(*txn).elements_readable(*array),
    ensures
        r@.len() == doc_arrays(*txn)[*array].len() <= u32::MAX,
        forall|i: int| 0 <= i < r@.len() ==> (#[trigger] r@[i])@ == doc_arrays(*txn)[*array][i],
        forall|i: int| 0 <= i < r@.len() ==> snapshot(*txn).live((#[trigger] r@[i])@),
        forall|i: int|
            0 <= i < r@.len() ==> doc_heights(*txn)[(#[trigger] r@[i])@] < doc_heights(
                *txn,
            )[Cell::YArray(*array)],
{
    yrs::Array::iter(array, txn)
        .map(
            |v|
                match v {
                    YValue::Any(Any::Bool(b)) => Value::Bool(b),
                    YValue::Any(Any::BigInt(n)) => Value::BigInt(n),
                    YValue::Any(Any::String(s)) => Value::Str(s.into()),
                    YValue::Any(_) => Value::OtherAny,
                    YValue::YText(t) => Value::YText(t),
                    YValue::YArray(a) => Value::YArray(a),
                    YValue::YMap(m) => Value::YMap(m),
                    _ => Value::Other,
                },
        )
        .collect()
}

/// `yrs::GetString::get_string` on a text node: the characters of a live
/// text node, in order.
#[verifier::external_body]
pub(crate) fn text_string(text: &yrs::TextRef, txn: &yrs::TransactionMut<'_>) -> (s: String)
    requires
        doc_texts(*txn).contains_key(*text),
    ensures
        s@ == doc_texts(*txn)[*text],
{
    yrs::GetString::get_string(text, txn)
}

/// `yrs::ReadTxn::get_map` on a read-only transaction: as [`root_map`].
#[verifier::external_body]
pub(crate) fn root_map_shared(txn: &yrs::Transaction<'_>, name: &str) -> (r: Option<yrs::MapRef>)
    ensures
        r is Some <==> shared_roots(*txn).contains_key(name@),
        r matches Some(m) ==> m == shared_roots(*txn)[name@],
        r matches Some(m) ==> shared_maps(*txn).contains_key(m),
{
    yrs::ReadTxn::get_map(txn, name)
}

/// `yrs::Map::get` with a read-only transaction: as [`map_get`].
#[verifier::external_body]
pub(crate) fn map_get_shared(map: &yrs::MapRef, txn: &yrs::Transaction<'_>, key: &str) -> (r:
    Option<Value>)
    requires
        shared_maps(*txn).contains_key(*map),
        shared_maps(*txn)[*map].contains_key(key@) ==> !(shared_maps(*txn)[*map][key@]
            is Unreadable),
    ensures
        r is Some <==> shared_maps(*txn)[*map].contains_key(key@),
        r matches Some(v) ==> v@ == shared_maps(*txn)[*map][key@],
        r matches Some(v) ==> shared_snapshot(*txn).live(v@),
        r matches Some(v) ==> shared_heights(*txn)[v@] < shared_heights(*txn)[Cell::YMap(*map)],
{
    Some(
        match yrs::Map::get(map, txn, key)? {
            YValue::Any(Any::Bool(b)) => Value::Bool(b),
            YValue::Any(Any::BigInt(n)) => Value::BigInt(n),
            YValue::Any(Any::String(s)) => Value::Str(s.into()),
            YValue::Any(_) => Value::OtherAny,
            YValue::YText(t) => Value::YText(t),
            YValue::YArray(a) => Value::YArray(a),
            YValue::YMap(m) => Value::YMap(m),
            _ => Value::Other,
        },
    )
}

/// `yrs::Map::contains_key` with a read-only transaction: as [`map_has`].
#[verifier::external_body]
pub(crate) fn map_has_shared(map: &yrs::MapRef, txn: &yrs::Transaction<'_>, key: &str) -> (b: bool)
    requires
        shared_maps(*txn).contains_key(*map),
    ensures
        b == shared_maps(*txn)[*map].contains_key(key@),
{
    yrs::Map::contains_key(map, txn, key)
}

/// `yrs::Array::len` with a read-only transaction: as [`array_len`].
#[verifier::external_body]
pub(crate) fn array_len_shared(array: &yrs::ArrayRef, txn: &yrs::Transaction<'_>) -> (n: u32)
    requires
        shared_arrays(*txn).contains_key(*array),
    ensures
        n == shared_arrays(*txn)[*array].len(),
{
    yrs::Array::len(array, txn)
}

/// `yrs::Array::get` with a read-only transaction: as [`array_get`].
#[verifier::external_body]
pub(crate) fn array_get_shared(array: &yrs::ArrayRef, txn: &yrs::Transaction<'_>, index: u32) -> (r:
    Option<Value>)
    requires
        shared_arrays(*txn).contains_key(*array),
        shared_snapshot(*txn).elements_readable(*array),
    ensures
        r is Some <==> index < shared_arrays(*txn)[*array].len(),
        r matches Some(v) ==> v@ == shared_arrays(*txn)[*array][index as int],
        r matches Some(v) ==> shared_snapshot(*txn).live(v@),
        r matches Some(v) ==> shared_heights(*txn)[v@] < shared_heights(*txn)[Cell::YArray(
            *array,
        )],
{
    Some(
        match yrs::Array::get(array, txn, index)? {
            YValue::Any(Any::Bool(b)) => Value::Bool(b),
            YValue::Any(Any::BigInt(n)) => Value::BigInt(n),
            YValue::Any(Any::String(s)) => Value::Str(s.into()),
            YValue::Any(_) => Value::OtherAny,
            YValue::YText(t) => Value::YText(t),
            YValue::YArray(a) => Value::YArray(a),
            YValue::YMap(m) => Value::YMap(m),
            _ => Value::Other,
        },
    )
}

/// `yrs::Array::iter` with a read-only transaction, run to its end: as
/// [`array_values`].
#[verifier::external_body]
pub(crate) fn array_values_shared(array: &yrs::ArrayRef, txn: &yrs::Transaction<'_>) -> (r: Vec<
    Value,
>)
    requires
        shared_arrays(*txn).contains_key(*array),
        shared_snapshot(*txn).elements_readable(*array),
    ensures
        r@.len() == shared_arrays(*txn)[*array].len() <= u32::MAX,
        forall|i: int| 0 <= i < r@.len() ==> (#[trigger] r@[i])@ == shared_arrays(*txn)[*array][i],
        forall|i: int| 0 <= i < r@.len() ==> shared_snapshot(*txn).live((#[trigger] r@[i])@),
        forall|i: int|
            0 <= i < r@.len() ==> shared_heights(*txn)[(#[trigger] r@[i])@] < shared_heights(
                *txn,
            )[Cell::YArray(*array)],
{
    yrs::Array::iter(array, txn)
        .map(
            |v|
                match v {
                    YValue::Any(Any::Bool(b)) => Value::Bool(b),
                    YValue::Any(Any::BigInt(n)) => Value::BigInt(n),
                    YValue::Any(Any::String(s)) => Value::Str(s.into()),
                    YValue::Any(_) => Value::OtherAny,
                    YValue::YText(t) => Value::YText(t),
                    YValue::YArray(a) => Value::YArray(a),
                    YValue::YMap(m) => Value::YMap(m),
                    _ => Value::Other,
                },
        )
        .collect()
}

/// `yrs::GetString::get_string` on a text node with a read-only
/// transaction: as [`text_string`].
#[verifier::external_body]
pub(crate) fn text_string_shared(text: &yrs::TextRef, txn: &yrs::Transaction<'_>) -> (s: String)
    requires
        shared_texts(*txn).contains_key(*text),
    ensures
        s@ == shared_texts(*txn)[*text],
{
    yrs::GetString::get_string(text, txn)
}

/// `yrs::Map::insert` of a boolean primitive into a live map node: the node
/// gains that entry, and what stood under the key before leaves with
/// everything below it. Nothing else changes.
/// What has left the document stays gone. The engine deletes what stood
/// under the key, so an entry that is unreadable is left out.
#[verifier::external_body]
pub(crate) fn map_insert_bool(
    map: &yrs::MapRef,
    txn: &mut yrs::TransactionMut<'_>,
    key: &str,
    b: bool,
)
    requires
        key_usable(snapshot(*old(txn)), *map, key@),
    ensures
        doc_gone(*old(txn)).subset_of(doc_gone(*final(txn))),
        map_puts(
            snapshot(*old(txn)),
            snapshot(*final(txn)),
            *map,
            key@,
            Cell::Bool(b),
            Seq::empty(),
        ),
{
    yrs::Map::insert(map, txn, key, Any::Bool(b));
}

/// `yrs::Map::insert` of a 64-bit integer primitive into a live map node:
/// the node gains that entry, and what stood under the key before leaves
/// with everything below it. Nothing else changes.
/// What has left the document stays gone. The engine deletes what stood
/// under the key, so an entry that is unreadable is left out.
#[verifier::external_body]
pub(crate) fn map_insert_bigint(
    map: &yrs::MapRef,
    txn: &mut yrs::TransactionMut<'_>,
    key: &str,
    n: i64,
)
    requires
        key_usable(snapshot(*old(txn)), *map, key@),
    ensures
        doc_gone(*old(txn)).subset_of(doc_gone(*final(txn))),
        map_puts(
            snapshot(*old(txn)),
            snapshot(*final(txn)),
            *map,
            key@,
            Cell::BigInt(n),
            Seq::empty(),
        ),
{
    yrs::Map::insert(map, txn, key, Any::BigInt(n));
}

/// `yrs::Map::insert` of a `yrs::TextPrelim` into a live map node: a new
/// text node holding `text` comes back, the node gains it as that entry, and
/// what stood under the key before leaves with everything below it.
/// Nothing else changes.
/// What has left the document stays gone. The engine deletes what stood
/// under the key, so an entry that is unreadable is left out.
#[verifier::external_body]
pub(crate) fn map_insert_text(
    map: &yrs::MapRef,
    txn: &mut yrs::TransactionMut<'_>,
    key: &str,
    text: &str,
) -> (node: yrs::TextRef)
    requires
        key_usable(snapshot(*old(txn)), *map, key@),
    ensures
        doc_gone(*old(txn)).subset_of(doc_gone(*final(txn))),
        map_puts(
            snapshot(*old(txn)),
            snapshot(*final(txn)),
            *map,
            key@,
            Cell::YText(node),
            text@,
        ),
{
    yrs::Map::insert(map, txn, key, yrs::TextPrelim::new(text))
}

/// `yrs::Map::insert` of an empty `yrs::ArrayPrelim` into a live map node:
/// a new, empty array node comes back, the node gains it as that entry, and
/// what stood under the key before leaves with everything below it.
/// Nothing else changes.
/// What has left the document stays gone. The engine deletes what stood
/// under the key, so an entry that is unreadable is left out.
#[verifier::external_body]
pub(crate) fn map_insert_array(
    map: &yrs::MapRef,
    txn: &mut yrs::TransactionMut<'_>,
    key: &str,
) -> (node: yrs::ArrayRef)
    requires
        key_usable(snapshot(*old(txn)), *map, key@),
    ensures
        doc_gone(*old(txn)).subset_of(doc_gone(*final(txn))),
        map_puts(
            snapshot(*old(txn)),
            snapshot(*final(txn)),
            *map,
            key@,
            Cell::YArray(node),
            Seq::empty(),
        ),
{
    yrs::Map::insert(map, txn, key, yrs::ArrayPrelim::<Vec<Any>, Any>::from(Vec::new()))
}

/// `yrs::Map::insert` of an empty `yrs::MapPrelim` into a live map node: a
/// new, empty map node comes back, the node gains it as that entry, and what
/// stood under the key before leaves with everything below it. Nothing
/// else changes.
/// What has left the document stays gone. The engine deletes what stood
/// under the key, so an entry that is unreadable is left out.
#[verifier::external_body]
pub(crate) fn map_insert_map(
    map: &yrs::MapRef,
    txn: &mut yrs::TransactionMut<'_>,
    key: &str,
) -> (node: yrs::MapRef)
    requires
        key_usable(snapshot(*old(txn)), *map, key@),
    ensures
        doc_gone(*old(txn)).subset_of(doc_gone(*final(txn))),
        map_puts(
            snapshot(*old(txn)),
            snapshot(*final(txn)),
            *map,
            key@,
            Cell::YMap(node),
            Seq::empty(),
        ),
{
    yrs::Map::insert(map, txn, key, yrs::MapPrelim::<Any>::new())
}

/// `yrs::Array::insert` of a boolean primitive at an index up to the node's
/// length: the node gains that element there and nothing else changes.
/// What has left the document stays gone. The engine walks the node up to
/// the index, so an array with an unreadable element is left out.
#[verifier::external_body]
pub(crate) fn array_insert_bool(
    array: &yrs::ArrayRef,
    txn: &mut yrs::TransactionMut<'_>,
    index: u32,
    b: bool,
)
    requires
        index_free(snapshot(*old(txn)), *array, index as int),
        snapshot(*old(txn)).elements_readable(*array),
    ensures
        doc_gone(*old(txn)).subset_of(doc_gone(*final(txn))),
        array_gains(
            snapshot(*old(txn)),
            snapshot(*final(txn)),
            *array,
            index as int,
            Cell::Bool(b),
            Seq::empty(),
        ),
{
    yrs::Array::insert(array, txn, index, Any::Bool(b));
}

/// `yrs::Array::insert` of a 64-bit integer primitive at an index up to the
/// node's length: the node gains that element there and nothing else changes.
/// What has left the document stays gone. The engine walks the node up to
/// the index, so an array with an unreadable element is left out.
#[verifier::external_body]
pub(crate) fn array_insert_bigint(
    array: &yrs::ArrayRef,
    txn: &mut yrs::TransactionMut<'_>,
    index: u32,
    n: i64,
)
    requires
        index_free(snapshot(*old(txn)), *array, index as int),
        snapshot(*old(txn)).elements_readable(*array),
    ensures
        doc_gone(*old(txn)).subset_of(doc_gone(*final(txn))),
        array_gains(
            snapshot(*old(txn)),
            snapshot(*final(txn)),
            *array,
            index as int,
            Cell::BigInt(n),
            Seq::empty(),
        ),
{
    yrs::Array::insert(array, txn, index, Any::BigInt(n));
}

/// `yrs::Array::insert` of a `yrs::TextPrelim` at an index up to the node's
/// length: a new text node holding `text` comes back, the node gains it as
/// that element and nothing else changes.
/// What has left the document stays gone. The engine walks the node up to
/// the index, so an array with an unreadable element is left out.
#[verifier::external_body]
pub(crate) fn array_insert_text(
    array: &yrs::ArrayRef,
    txn: &mut yrs::TransactionMut<'_>,
    index: u32,
    text: &str,
) -> (node: yrs::TextRef)
    requires
        index_free(snapshot(*old(txn)), *array, index as int),
        snapshot(*old(txn)).elements_readable(*array),
    ensures
        doc_gone(*old(txn)).subset_of(doc_gone(*final(txn))),
        array_gains(
            snapshot(*old(txn)),
            snapshot(*final(txn)),
            *array,
            index as int,
            Cell::YText(node),
            text@,
        ),
{
    yrs::Array::insert(array, txn, index, yrs::TextPrelim::new(text))
}

/// `yrs::Array::insert` of an empty `yrs::ArrayPrelim` at an index up to the
/// node's length: a new, empty array node comes back, the node gains it as
/// that element and nothing else changes.
/// What has left the document stays gone. The engine walks the node up to
/// the index, so an array with an unreadable element is left out.
#[verifier::external_body]
pub(crate) fn array_insert_array(
    array: &yrs::ArrayRef,
    txn: &mut yrs::TransactionMut<'_>,
    index: u32,
) -> (node: yrs::ArrayRef)
    requires
        index_free(snapshot(*old(txn)), *array, index as int),
        snapshot(*old(txn)).elements_readable(*array),
    ensures
        doc_gone(*old(txn)).subset_of(doc_gone(*final(txn))),
        array_gains(
            snapshot(*old(txn)),
            snapshot(*final(txn)),
            *array,
            index as int,
            Cell::YArray(node),
            Seq::empty(),
        ),
{
    yrs::Array::insert(array, txn, index, yrs::ArrayPrelim::<Vec<Any>, Any>::from(Vec::new()))
}

/// `yrs::Array::insert` of an empty `yrs::MapPrelim` at an index up to the
/// node's length: a new, empty map node comes back, the node gains it as that
/// element and nothing else changes.
/// What has left the document stays gone. The engine walks the node up to
/// the index, so an array with an unreadable element is left out.
#[verifier::external_body]
pub(crate) fn array_insert_map(
    array: &yrs::ArrayRef,
    txn: &mut yrs::TransactionMut<'_>,
    index: u32,
) -> (node: yrs::MapRef)
    requires
        index_free(snapshot(*old(txn)), *array, index as int),
        snapshot(*old(txn)).elements_readable(*array),
    ensures
        doc_gone(*old(txn)).subset_of(doc_gone(*final(txn))),
        array_gains(
            snapshot(*old(txn)),
            snapshot(*final(txn)),
            *array,
            index as int,
            Cell::YMap(node),
            Seq::empty(),
        ),
{
    yrs::Array::insert(array, txn, index, yrs::MapPrelim::<Any>::new())
}

} // verus!
