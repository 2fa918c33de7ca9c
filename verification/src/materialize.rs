//! Writing preliminary values into a document.
//!
//! A record becomes one new map node with an entry under the name of each
//! field that is present; an optional field that is left out gets no entry
//! at all. A collection becomes one new array node with its elements in
//! order, a text one new text node, a UUID one new text node with its
//! canonical text, and a boolean, a timestamp or a duration a primitive.
//! [`holds_from`] says what it means that a cell of a document stands for a
//! preliminary value, and [`write`] establishes it.

use crate::doc::{
    array_gains,
    array_insert_array,
    array_insert_bigint,
    array_insert_bool,
    array_insert_map,
    array_insert_text,
    index_free,
    key_free,
    map_puts,
    map_insert_array,
    map_insert_bigint,
    map_insert_bool,
    map_insert_map,
    map_insert_text,
    snapshot,
    Cell,
    DocView,
    Value,
};
use crate::prelim::{conforms, primitive_cell, Prelim, PrelimView, ToPrelim};
use crate::read_txn::ReadTxn;
use crate::schema::{record_ok, FieldType, FieldView, RecordView, Schema};
use crate::try_from_yrs_value::TryFromYrsValue;
use crate::uuid::{canonical, to_text};
use vstd::pervasive::unreached;
use vstd::prelude::*;

verus! {

/// Where a value is written: under a key of a map node, or at an index of an
/// array node.
pub enum Slot<'a> {
    Key(&'a yrs::MapRef, &'a str),
    Index(&'a yrs::ArrayRef, u32),
}

impl<'a> Slot<'a> {
    /// The node that the slot belongs to.
    pub open spec fn container(self) -> Cell {
        match self {
            Slot::Key(map, _) => Cell::YMap(*map),
            Slot::Index(array, _) => Cell::YArray(*array),
        }
    }

    /// A write into the slot adds to its node and replaces nothing: see
    /// [`key_free`] and [`index_free`].
    pub open spec fn free(self, d: DocView) -> bool {
        match self {
            Slot::Key(map, key) => key_free(d, *map, key@),
            Slot::Index(array, index) => index_free(d, *array, index as int),
        }
    }

    /// The slot can be written: the map node of a key is live, whether it
    /// has an entry under the key or not, and an index is free.
    pub open spec fn ready(self, d: DocView) -> bool {
        match self {
            Slot::Key(map, _) => d.maps.contains_key(*map),
            Slot::Index(array, index) => index_free(d, *array, index as int),
        }
    }

    /// The engine can write into the slot: what stands under a key, if
    /// anything, is not unreadable, and the array node of an index has no
    /// unreadable element.
    pub open spec fn usable(self, d: DocView) -> bool {
        match self {
            Slot::Key(map, key) => d.maps[*map].contains_key(key@) ==> !(d.maps[*map][key@]
                is Unreadable),
            Slot::Index(array, _) => d.elements_readable(*array),
        }
    }

    /// The document as a write into the slot finds it once what stood in the
    /// slot has left: for a key with an entry, the entry is cleared with
    /// everything below it.
    pub open spec fn before(self, d: DocView) -> DocView {
        match self {
            Slot::Key(map, key) => if d.maps[*map].contains_key(key@) {
                d.cleared(d.maps[*map][key@])
            } else {
                d
            },
            Slot::Index(_, _) => d,
        }
    }

    /// See [`map_puts`] and [`array_gains`].
    pub open spec fn puts(self, pre: DocView, post: DocView, cell: Cell, text: Seq<char>) -> bool {
        match self {
            Slot::Key(map, key) => map_puts(pre, post, *map, key@, cell, text),
            Slot::Index(array, index) => array_gains(pre, post, *array, index as int, cell, text),
        }
    }

    /// The container holds in `post` what it held in `pre` and `cell` in
    /// this slot.
    pub open spec fn filled(self, pre: DocView, post: DocView, cell: Cell) -> bool {
        match self {
            Slot::Key(map, key) => post.maps.contains_key(*map) && post.maps[*map]
                == pre.maps[*map].insert(key@, cell),
            Slot::Index(array, index) => post.arrays.contains_key(*array) && post.arrays[*array]
                == pre.arrays[*array].insert(index as int, cell),
        }
    }
}

/// Every node of `pre` is a node of `post`, and holds there what it held in
/// `pre` unless it is `except`.
pub open spec fn grows(pre: DocView, post: DocView, except: Cell) -> bool {
    &&& forall|m: yrs::MapRef| #[trigger]
        pre.maps.contains_key(m) ==> post.maps.contains_key(m) && (Cell::YMap(m) != except
            ==> post.maps[m] == pre.maps[m])
    &&& forall|a: yrs::ArrayRef| #[trigger]
        pre.arrays.contains_key(a) ==> post.arrays.contains_key(a) && (Cell::YArray(a) != except
            ==> post.arrays[a] == pre.arrays[a])
    &&& forall|t: yrs::TextRef| #[trigger]
        pre.texts.contains_key(t) ==> post.texts.contains_key(t) && post.texts[t] == pre.texts[t]
}

/// Every node of `post` is a node of `pre` or new, and what is gone stays
/// gone.
pub open spec fn adds_only(pre: DocView, post: DocView) -> bool {
    &&& pre.gone.subset_of(post.gone)
    &&& forall|n: Cell| #[trigger] post.has_node(n) ==> pre.has_node(n) || !pre.gone.contains(n)
}

/// Every node of `pre` that a write into `slot` replaces is a node of `post`
/// no more, and is gone. The slot's own node is none of them.
pub open spec fn left(pre: DocView, post: DocView, slot: Slot<'_>) -> bool {
    forall|n: Cell|
        pre.has_node(n) && !slot.before(pre).has_node(n) && n != slot.container() ==> !(
        #[trigger] post.has_node(n)) && post.gone.contains(n)
}

/// Every node of `inner` is a node of `outer`.
pub open spec fn within(inner: DocView, outer: DocView) -> bool {
    &&& forall|m: yrs::MapRef| #[trigger] inner.maps.contains_key(m) ==> outer.maps.contains_key(m)
    &&& forall|a: yrs::ArrayRef| #[trigger]
        inner.arrays.contains_key(a) ==> outer.arrays.contains_key(a)
    &&& forall|t: yrs::TextRef| #[trigger]
        inner.texts.contains_key(t) ==> outer.texts.contains_key(t)
}

/// Every node of `d1` that is no node of `base` is a node of `d2` and holds
/// there what it holds in `d1`.
pub open spec fn kept_since(base: DocView, d1: DocView, d2: DocView) -> bool {
    &&& forall|m: yrs::MapRef| #[trigger]
        d1.maps.contains_key(m) && !base.maps.contains_key(m) ==> d2.maps.contains_key(m)
            && d2.maps[m] == d1.maps[m]
    &&& forall|a: yrs::ArrayRef| #[trigger]
        d1.arrays.contains_key(a) && !base.arrays.contains_key(a) ==> d2.arrays.contains_key(a)
            && d2.arrays[a] == d1.arrays[a]
    &&& forall|t: yrs::TextRef| #[trigger]
        d1.texts.contains_key(t) && !base.texts.contains_key(t) ==> d2.texts.contains_key(t)
            && d2.texts[t] == d1.texts[t]
}

/// `key` is the name of one of the first `upto` fields, and that field is
/// present in `fs`.
pub open spec fn present_name(
    fields: Seq<FieldView>,
    fs: Seq<Option<PrelimView>>,
    upto: int,
    key: Seq<char>,
) -> bool {
    exists|k: int| 0 <= k < upto && fs[k] is Some && #[trigger] fields[k].name == key
}

/// In the document `d`, `cell` stands for the value `p` of type `ty`, and
/// every node that takes part in that is a node of `d` that `base` does not
/// have.
///
/// A boolean, a timestamp and a duration are the primitive that
/// [`primitive_cell`] names. A record is a map node with, for each field, an
/// entry that stands for the field's value where the field is present and
/// no entry where it is left out, and with no other entry. A collection is
/// an array node of the same length whose elements stand for the elements
/// of `p`, in order.
pub open spec fn holds_from(
    base: DocView,
    d: DocView,
    s: Seq<RecordView>,
    ty: FieldType,
    cell: Cell,
    p: PrelimView,
) -> bool
    decreases p,
{
    match p {
        PrelimView::Bool(_) => ty is Bool && Some(cell) == primitive_cell(p),
        PrelimView::DateTime(_) => ty is DateTime && Some(cell) == primitive_cell(p),
        PrelimView::Duration(_) => ty is Duration && Some(cell) == primitive_cell(p),
        PrelimView::Text(text) => {
            &&& ty is Text
            &&& cell matches Cell::YText(node)
            &&& d.texts.contains_key(node)
            &&& !base.texts.contains_key(node)
            &&& d.texts[node] == text
        },
        PrelimView::Uuid(bytes) => {
            &&& ty is Uuid
            &&& cell matches Cell::YText(node)
            &&& d.texts.contains_key(node)
            &&& !base.texts.contains_key(node)
            &&& d.texts[node] == canonical(bytes)
        },
        PrelimView::Record(fs) => {
            &&& ty matches FieldType::Record(r)
            &&& r < s.len()
            &&& cell matches Cell::YMap(node)
            &&& d.maps.contains_key(node)
            &&& !base.maps.contains_key(node)
            &&& fs.len() == s[r as int].fields.len()
            &&& forall|key: Seq<char>| #[trigger]
                d.maps[node].contains_key(key) ==> present_name(
                    s[r as int].fields,
                    fs,
                    fs.len() as int,
                    key,
                )
            &&& forall|k: int|
                0 <= k < fs.len() ==> match #[trigger] fs[k] {
                    Some(fp) => d.maps[node].contains_key(s[r as int].fields[k].name)
                        && holds_from(
                        base,
                        d,
                        s,
                        s[r as int].fields[k].ty,
                        d.maps[node][s[r as int].fields[k].name],
                        fp,
                    ),
                    None => !d.maps[node].contains_key(s[r as int].fields[k].name),
                }
        },
        PrelimView::List(xs) => {
            &&& ty matches FieldType::Collection(inner)
            &&& cell matches Cell::YArray(node)
            &&& d.arrays.contains_key(node)
            &&& !base.arrays.contains_key(node)
            &&& d.arrays[node].len() == xs.len()
            &&& forall|i: int|
                0 <= i < xs.len() ==> holds_from(
                    base,
                    d,
                    s,
                    *inner,
                    d.arrays[node][i],
                    #[trigger] xs[i],
                )
        },
    }
}

/// In the document `d`, `cell` stands for the value `p` of type `ty`.
pub open spec fn holds(
    d: DocView,
    s: Seq<RecordView>,
    ty: FieldType,
    cell: Cell,
    p: PrelimView,
) -> bool {
    holds_from(DocView::empty(), d, s, ty, cell, p)
}

/// What stands for a value keeps standing for it while the nodes that take
/// part stay as they are, and it does so relative to any smaller base.
pub proof fn lemma_holds_transfer(
    base1: DocView,
    d1: DocView,
    base2: DocView,
    d2: DocView,
    s: Seq<RecordView>,
    ty: FieldType,
    cell: Cell,
    p: PrelimView,
)
    requires
        holds_from(base1, d1, s, ty, cell, p),
        within(base2, base1),
        kept_since(base1, d1, d2),
    ensures
        holds_from(base2, d2, s, ty, cell, p),
    decreases p,
{
    match p {
        PrelimView::Record(fs) => {
            let r = ty->Record_0;
            let node = cell->YMap_0;
            let fields = s[r as int].fields;
            assert forall|k: int| 0 <= k < fs.len() implies match #[trigger] fs[k] {
                Some(fp) => d2.maps[node].contains_key(fields[k].name) && holds_from(
                    base2,
                    d2,
                    s,
                    fields[k].ty,
                    d2.maps[node][fields[k].name],
                    fp,
                ),
                None => !d2.maps[node].contains_key(fields[k].name),
            } by {
                match fs[k] {
                    Some(fp) => {
                        lemma_holds_transfer(
                            base1,
                            d1,
                            base2,
                            d2,
                            s,
                            fields[k].ty,
                            d1.maps[node][fields[k].name],
                            fp,
                        );
                    },
                    None => {},
                }
            }
        },
        PrelimView::List(xs) => {
            let inner = ty->Collection_0;
            let node = cell->YArray_0;
            assert forall|i: int| 0 <= i < xs.len() implies holds_from(
                base2,
                d2,
                s,
                *inner,
                d2.arrays[node][i],
                #[trigger] xs[i],
            ) by {
                lemma_holds_transfer(base1, d1, base2, d2, s, *inner, d1.arrays[node][i], xs[i]);
            }
        },
        _ => {},
    }
}

/// What writing `cell` into a slot leaves behind.
proof fn lemma_puts(slot: Slot<'_>, pre: DocView, post: DocView, cell: Cell, text: Seq<char>)
    requires
        slot.ready(pre),
        slot.puts(pre, post, cell, text),
    ensures
        slot.filled(pre, post, cell),
        grows(slot.before(pre), post, slot.container()),
        within(slot.before(pre), pre),
        post.well_formed(),
        post.live(cell),
        !pre.has_node(cell),
        cell matches Cell::YText(t) ==> post.texts[t] == text,
        cell matches Cell::YArray(a) ==> post.arrays[a] == Seq::<Cell>::empty(),
        cell matches Cell::YMap(m) ==> post.maps[m] == Map::<Seq<char>, Cell>::empty(),
        adds_only(pre, post),
        left(pre, post, slot),
{
}

fn put_bool(slot: &Slot<'_>, b: bool, txn: &mut yrs::TransactionMut<'_>)
    requires
        slot.ready(snapshot(*old(txn))),
        slot.usable(snapshot(*old(txn))),
    ensures
        slot.puts(snapshot(*old(txn)), snapshot(*final(txn)), Cell::Bool(b), Seq::empty()),
{
    match slot {
        Slot::Key(map, key) => map_insert_bool(map, txn, key, b),
        Slot::Index(array, index) => array_insert_bool(array, txn, *index, b),
    }
}

fn put_bigint(slot: &Slot<'_>, n: i64, txn: &mut yrs::TransactionMut<'_>)
    requires
        slot.ready(snapshot(*old(txn))),
        slot.usable(snapshot(*old(txn))),
    ensures
        slot.puts(snapshot(*old(txn)), snapshot(*final(txn)), Cell::BigInt(n), Seq::empty()),
{
    match slot {
        Slot::Key(map, key) => map_insert_bigint(map, txn, key, n),
        Slot::Index(array, index) => array_insert_bigint(array, txn, *index, n),
    }
}

fn put_text(slot: &Slot<'_>, text: &str, txn: &mut yrs::TransactionMut<'_>) -> (node: yrs::TextRef)
    requires
        slot.ready(snapshot(*old(txn))),
        slot.usable(snapshot(*old(txn))),
    ensures
        slot.puts(snapshot(*old(txn)), snapshot(*final(txn)), Cell::YText(node), text@),
{
    match slot {
        Slot::Key(map, key) => map_insert_text(map, txn, key, text),
        Slot::Index(array, index) => array_insert_text(array, txn, *index, text),
    }
}

fn put_array(slot: &Slot<'_>, txn: &mut yrs::TransactionMut<'_>) -> (node: yrs::ArrayRef)
    requires
        slot.ready(snapshot(*old(txn))),
        slot.usable(snapshot(*old(txn))),
    ensures
        slot.puts(snapshot(*old(txn)), snapshot(*final(txn)), Cell::YArray(node), Seq::empty()),
{
    match slot {
        Slot::Key(map, key) => map_insert_array(map, txn, key),
        Slot::Index(array, index) => array_insert_array(array, txn, *index),
    }
}

fn put_map(slot: &Slot<'_>, txn: &mut yrs::TransactionMut<'_>) -> (node: yrs::MapRef)
    requires
        slot.ready(snapshot(*old(txn))),
        slot.usable(snapshot(*old(txn))),
    ensures
        slot.puts(snapshot(*old(txn)), snapshot(*final(txn)), Cell::YMap(node), Seq::empty()),
{
    match slot {
        Slot::Key(map, key) => map_insert_map(map, txn, key),
        Slot::Index(array, index) => array_insert_map(array, txn, *index),
    }
}

/// What [`write`] leaves behind: `cell` stands for `p` through nodes that
/// are all new, the slot's node holds `cell` in the slot, what stood under
/// the key before has left with everything below it, every other node of
/// `pre` is as it was, and no node has come but new ones.
pub open spec fn written(
    pre: DocView,
    post: DocView,
    s: Seq<RecordView>,
    ty: FieldType,
    p: PrelimView,
    slot: Slot<'_>,
    cell: Cell,
) -> bool {
    &&& holds_from(slot.before(pre), post, s, ty, cell, p)
    &&& slot.filled(pre, post, cell)
    &&& grows(slot.before(pre), post, slot.container())
    &&& post.well_formed()
    &&& adds_only(pre, post)
    &&& left(pre, post, slot)
}

/// Writes the value `p` of type `ty` into a slot and returns what now
/// stands in the slot. Under a key that has an entry, the value takes the
/// entry's place.
pub fn write(
    schema: &Schema,
    ty: &FieldType,
    p: &Prelim,
    slot: &Slot<'_>,
    txn: &mut yrs::TransactionMut<'_>,
) -> (v: Value)
    requires
        conforms(schema@, *ty, p@),
        slot.ready(snapshot(*old(txn))),
        slot.usable(snapshot(*old(txn))),
    ensures
        written(snapshot(*old(txn)), snapshot(*final(txn)), schema@, *ty, p@, *slot, v@),
    decreases p,
{
    let ghost pre = snapshot(*old(txn));
    let ghost base = slot.before(pre);
    let ghost s = schema@;
    match p {
        Prelim::Bool(_) | Prelim::DateTime(_) | Prelim::Duration(_) => match p.primitive() {
            Some(Value::Bool(b)) => {
                put_bool(slot, b, txn);
                proof {
                    lemma_puts(*slot, pre, snapshot(*txn), Cell::Bool(b), Seq::empty());
                }
                Value::Bool(b)
            },
            Some(Value::BigInt(n)) => {
                put_bigint(slot, n, txn);
                proof {
                    lemma_puts(*slot, pre, snapshot(*txn), Cell::BigInt(n), Seq::empty());
                }
                Value::BigInt(n)
            },
            _ => unreached(),
        },
        Prelim::Text(text) => {
            let node = put_text(slot, text.as_str(), txn);
            proof {
                lemma_puts(*slot, pre, snapshot(*txn), Cell::YText(node), text@);
            }
            Value::YText(node)
        },
        Prelim::Uuid(bytes) => {
            let text = to_text(bytes);
            let node = put_text(slot, text.as_str(), txn);
            proof {
                lemma_puts(*slot, pre, snapshot(*txn), Cell::YText(node), text@);
            }
            Value::YText(node)
        },
        Prelim::Record(fs) => {
            let r = match ty {
                FieldType::Record(r) => *r,
                _ => {
                    proof {
                        assert(false);
                    }
                    0
                },
            };
            let node = put_map(slot, txn);
            let ghost m0 = snapshot(*txn);
            proof {
                lemma_puts(*slot, pre, m0, Cell::YMap(node), Seq::empty());
            }
            fill_record(schema, r, fs, &node, txn);
            proof {
                let post = snapshot(*txn);
                let fv = p@->Record_0;
                assert forall|j: int| 0 <= j < fv.len() implies match #[trigger] fv[j] {
                    Some(fp) => post.maps[node].contains_key(s[r as int].fields[j].name)
                        && holds_from(
                        base,
                        post,
                        s,
                        s[r as int].fields[j].ty,
                        post.maps[node][s[r as int].fields[j].name],
                        fp,
                    ),
                    None => !post.maps[node].contains_key(s[r as int].fields[j].name),
                } by {
                    if let Some(fp) = fv[j] {
                        lemma_holds_transfer(
                            m0,
                            post,
                            base,
                            post,
                            s,
                            s[r as int].fields[j].ty,
                            post.maps[node][s[r as int].fields[j].name],
                            fp,
                        );
                    }
                }
            }
            Value::YMap(node)
        },
        Prelim::List(xs) => {
            let inner = match ty {
                FieldType::Collection(inner) => inner,
                _ => {
                    proof {
                        assert(false);
                    }
                    ty
                },
            };
            let node = put_array(slot, txn);
            let ghost m0 = snapshot(*txn);
            proof {
                lemma_puts(*slot, pre, m0, Cell::YArray(node), Seq::empty());
            }
            fill_list(schema, inner, xs, &node, txn);
            proof {
                let post = snapshot(*txn);
                let xv = p@->List_0;
                assert forall|j: int| 0 <= j < xv.len() implies holds_from(
                    base,
                    post,
                    s,
                    *inner,
                    post.arrays[node][j],
                    #[trigger] xv[j],
                ) by {
                    lemma_holds_transfer(
                        m0,
                        post,
                        base,
                        post,
                        s,
                        *inner,
                        post.arrays[node][j],
                        xv[j],
                    );
                }
            }
            Value::YArray(node)
        },
    }
}

/// In the document `d`, the entries of the map node `node` stand for the
/// fields `fs` of a value of the record type at index `r`, through nodes
/// that `base` does not have, and the node has no other entry.
pub open spec fn record_filled(
    base: DocView,
    d: DocView,
    s: Seq<RecordView>,
    r: usize,
    node: yrs::MapRef,
    fs: Seq<Option<PrelimView>>,
) -> bool {
    &&& d.maps.contains_key(node)
    &&& forall|key: Seq<char>| #[trigger]
        d.maps[node].contains_key(key) ==> present_name(
            s[r as int].fields,
            fs,
            fs.len() as int,
            key,
        )
    &&& forall|k: int|
        0 <= k < fs.len() ==> match #[trigger] fs[k] {
            Some(fp) => d.maps[node].contains_key(s[r as int].fields[k].name) && holds_from(
                base,
                d,
                s,
                s[r as int].fields[k].ty,
                d.maps[node][s[r as int].fields[k].name],
                fp,
            ),
            None => !d.maps[node].contains_key(s[r as int].fields[k].name),
        }
}

/// In the document `d`, the elements of the array node `node` stand for the
/// elements `xs` of a collection of `inner`, in order and through nodes
/// that `base` does not have.
pub open spec fn list_filled(
    base: DocView,
    d: DocView,
    s: Seq<RecordView>,
    inner: FieldType,
    node: yrs::ArrayRef,
    xs: Seq<PrelimView>,
) -> bool {
    &&& d.arrays.contains_key(node)
    &&& d.arrays[node].len() == xs.len()
    &&& forall|i: int|
        0 <= i < xs.len() ==> holds_from(base, d, s, inner, d.arrays[node][i], #[trigger] xs[i])
}

/// Writes the fields `fs` of a value of the record type at index `r` into
/// a live map node that has no entry yet: one entry under the name of each
/// field that is present, in declaration order, and none for a field that
/// is left out. No other node of the document changes.
pub fn fill_record(
    schema: &Schema,
    r: usize,
    fs: &Vec<Option<Prelim>>,
    node: &yrs::MapRef,
    txn: &mut yrs::TransactionMut<'_>,
)
    requires
        conforms(schema@, FieldType::Record(r), Prelim::Record(*fs)@),
        snapshot(*old(txn)).maps.contains_key(*node),
        snapshot(*old(txn)).maps[*node] == Map::<Seq<char>, Cell>::empty(),
    ensures
        record_filled(
            snapshot(*old(txn)),
            snapshot(*final(txn)),
            schema@,
            r,
            *node,
            Prelim::Record(*fs)@->Record_0,
        ),
        grows(snapshot(*old(txn)), snapshot(*final(txn)), Cell::YMap(*node)),
        snapshot(*old(txn)).well_formed() ==> snapshot(*final(txn)).well_formed(),
        adds_only(snapshot(*old(txn)), snapshot(*final(txn))),
    decreases fs,
{
    let ghost m0 = snapshot(*old(txn));
    let ghost s = schema@;
    let ghost fv = Prelim::Record(*fs)@->Record_0;
    let record = schema.record(r);
    let mut k: usize = 0;
    while k < fs.len()
        invariant
            k <= fs.len(),
            s == schema@,
            fv == Prelim::Record(*fs)@->Record_0,
            conforms(s, FieldType::Record(r), PrelimView::Record(fv)),
            r < s.len(),
            record@ == s[r as int],
            record_ok(record@, s.len()),
            fs@.len() == record.fields@.len(),
            record@.fields.len() == record.fields@.len(),
            m0.well_formed() ==> snapshot(*txn).well_formed(),
            adds_only(m0, snapshot(*txn)),
            snapshot(*txn).maps.contains_key(*node),
            m0.maps.contains_key(*node),
            grows(m0, snapshot(*txn), Cell::YMap(*node)),
            forall|j: int|
                0 <= j < fs@.len() ==> (snapshot(*txn).maps[*node].contains_key(
                    #[trigger] record@.fields[j].name,
                ) <==> j < k && fs@[j] is Some),
            forall|key: Seq<char>| #[trigger]
                snapshot(*txn).maps[*node].contains_key(key) ==> present_name(
                    record@.fields,
                    fv,
                    k as int,
                    key,
                ),
            forall|j: int|
                0 <= j < k ==> (#[trigger] fs@[j] matches Some(fp) ==> holds_from(
                    m0,
                    snapshot(*txn),
                    s,
                    record@.fields[j].ty,
                    snapshot(*txn).maps[*node][record@.fields[j].name],
                    fp@,
                )),
        decreases fs.len() - k,
    {
        let ghost before = snapshot(*txn);
        match &fs[k] {
            Some(fp) => {
                assert(fv[k as int] == Some(fp@));
                let field = &record.fields[k];
                let name = field.name.as_str();
                let inner_slot = Slot::Key(node, name);
                let v = write(schema, &field.ty, fp, &inner_slot, txn);
                proof {
                    let after = snapshot(*txn);
                    assert forall|key: Seq<char>| #[trigger]
                        after.maps[*node].contains_key(key) implies present_name(
                        record@.fields,
                        fv,
                        k + 1,
                        key,
                    ) by {
                        if key != record@.fields[k as int].name {
                            assert(present_name(record@.fields, fv, k as int, key));
                        }
                    }
                    lemma_holds_transfer(before, after, m0, after, s, field.ty, v@, fp@);
                    assert forall|j: int| 0 <= j < k implies (#[trigger] fs@[j] matches Some(
                        fq,
                    ) ==> holds_from(
                        m0,
                        after,
                        s,
                        record@.fields[j].ty,
                        after.maps[*node][record@.fields[j].name],
                        fq@,
                    )) by {
                        if let Some(fq) = fs@[j] {
                            lemma_holds_transfer(
                                m0,
                                before,
                                m0,
                                after,
                                s,
                                record@.fields[j].ty,
                                before.maps[*node][record@.fields[j].name],
                                fq@,
                            );
                        }
                    }
                }
            },
            None => {
                assert forall|key: Seq<char>| #[trigger]
                    before.maps[*node].contains_key(key) implies present_name(
                    record@.fields,
                    fv,
                    k + 1,
                    key,
                ) by {
                    assert(present_name(record@.fields, fv, k as int, key));
                }
            },
        }
        k = k + 1;
    }
    proof {
        let post = snapshot(*txn);
        assert forall|j: int| 0 <= j < fv.len() implies match #[trigger] fv[j] {
            Some(fp) => post.maps[*node].contains_key(s[r as int].fields[j].name) && holds_from(
                m0,
                post,
                s,
                s[r as int].fields[j].ty,
                post.maps[*node][s[r as int].fields[j].name],
                fp,
            ),
            None => !post.maps[*node].contains_key(s[r as int].fields[j].name),
        } by {
            assert(fv[j] == match fs@[j] {
                Some(fp) => Some(fp@),
                None => None,
            });
        }
    }
}

/// Writes the elements `xs` of a collection of `inner` into a live array
/// node that has no element yet, in order. No other node of the document
/// changes.
pub fn fill_list(
    schema: &Schema,
    inner: &FieldType,
    xs: &Vec<Prelim>,
    node: &yrs::ArrayRef,
    txn: &mut yrs::TransactionMut<'_>,
)
    requires
        conforms(schema@, FieldType::Collection(Box::new(*inner)), Prelim::List(*xs)@),
        snapshot(*old(txn)).arrays.contains_key(*node),
        snapshot(*old(txn)).arrays[*node] == Seq::<Cell>::empty(),
    ensures
        list_filled(
            snapshot(*old(txn)),
            snapshot(*final(txn)),
            schema@,
            *inner,
            *node,
            Prelim::List(*xs)@->List_0,
        ),
        grows(snapshot(*old(txn)), snapshot(*final(txn)), Cell::YArray(*node)),
        snapshot(*old(txn)).well_formed() ==> snapshot(*final(txn)).well_formed(),
        adds_only(snapshot(*old(txn)), snapshot(*final(txn))),
    decreases xs,
{
    let ghost m0 = snapshot(*old(txn));
    let ghost s = schema@;
    let ghost xv = Prelim::List(*xs)@->List_0;
    let mut i: u32 = 0;
    while (i as usize) < xs.len()
        invariant
            i <= xs.len() <= u32::MAX,
            s == schema@,
            xv == Prelim::List(*xs)@->List_0,
            conforms(s, FieldType::Collection(Box::new(*inner)), PrelimView::List(xv)),
            m0.well_formed() ==> snapshot(*txn).well_formed(),
            adds_only(m0, snapshot(*txn)),
            snapshot(*txn).arrays.contains_key(*node),
            m0.arrays.contains_key(*node),
            grows(m0, snapshot(*txn), Cell::YArray(*node)),
            snapshot(*txn).arrays[*node].len() == i,
            snapshot(*txn).elements_readable(*node),
            forall|j: int|
                0 <= j < i ==> holds_from(
                    m0,
                    snapshot(*txn),
                    s,
                    *inner,
                    snapshot(*txn).arrays[*node][j],
                    (#[trigger] xs@[j])@,
                ),
        decreases xs.len() - i,
    {
        let ghost before = snapshot(*txn);
        assert(xv[i as int] == xs@[i as int]@);
        let inner_slot = Slot::Index(node, i);
        let v = write(schema, inner, &xs[i as usize], &inner_slot, txn);
        proof {
            let after = snapshot(*txn);
            lemma_holds_transfer(before, after, m0, after, s, *inner, v@, xs@[i as int]@);
            assert(!(v@ is Unreadable));
            assert(after.arrays[*node] == before.arrays[*node].insert(i as int, v@));
            assert forall|j: int| 0 <= j < i implies holds_from(
                m0,
                after,
                s,
                *inner,
                after.arrays[*node][j],
                (#[trigger] xs@[j])@,
            ) by {
                lemma_holds_transfer(
                    m0,
                    before,
                    m0,
                    after,
                    s,
                    *inner,
                    before.arrays[*node][j],
                    xs@[j]@,
                );
            }
        }
        i = i + 1;
    }
    proof {
        let post = snapshot(*txn);
        assert forall|j: int| 0 <= j < xv.len() implies holds_from(
            m0,
            post,
            s,
            *inner,
            post.arrays[*node][j],
            #[trigger] xv[j],
        ) by {}
    }
}

/// Why a value was not written.
#[derive(Clone, Copy, Debug, PartialEq, Eq, Structural)]
pub enum InsertError {
    /// The value is no value of the type it was to be written as.
    NotConforming,
    /// The index lies beyond the end of the array node, or the node is full.
    OutOfBounds,
}

impl<'a> Slot<'a> {
    /// Computes [`Slot::ready`] for a slot of a live node.
    pub fn is_ready<R: ReadTxn>(&self, txn: &R) -> (b: bool)
        requires
            txn.view().live(self.container()),
        ensures
            b == self.ready(txn.view()),
    {
        match self {
            Slot::Key(_, _) => true,
            Slot::Index(array, index) => {
                let n = txn.length(array);
                *index <= n && n < u32::MAX
            },
        }
    }

    /// Computes [`Slot::free`] for a slot of a live node: whether a write
    /// into it would add to the node and replace nothing.
    pub fn is_free<R: ReadTxn>(&self, txn: &R) -> (b: bool)
        requires
            txn.view().live(self.container()),
        ensures
            b == self.free(txn.view()),
    {
        match self {
            Slot::Key(map, key) => !txn.has_entry(map, key),
            Slot::Index(array, index) => {
                let n = txn.length(array);
                *index <= n && n < u32::MAX
            },
        }
    }
}

/// Whether [`insert`] writes, and the error with which it refuses.
pub open spec fn insert_outcome(
    d: DocView,
    s: Seq<RecordView>,
    ty: FieldType,
    p: PrelimView,
    slot: Slot<'_>,
) -> Result<(), InsertError> {
    if !conforms(s, ty, p) {
        Err(InsertError::NotConforming)
    } else if slot.ready(d) {
        Ok(())
    } else {
        Err(InsertError::OutOfBounds)
    }
}

/// Writes the value `p` of type `ty` into a slot of a live node and returns
/// what now stands in the slot. Under a key that has an entry, the value
/// takes the entry's place. A value that does not conform and an index
/// beyond the end are refused, and the document stays as it is. A slot
/// that is not [`Slot::usable`] must not be written into: the engine
/// deletes what stood under a key, and walks an array node up to the index.
pub fn insert(
    schema: &Schema,
    ty: &FieldType,
    p: &Prelim,
    slot: &Slot<'_>,
    txn: &mut yrs::TransactionMut<'_>,
) -> (r: Result<Value, InsertError>)
    requires
        snapshot(*old(txn)).live(slot.container()),
        slot.usable(snapshot(*old(txn))),
    ensures
        match insert_outcome(snapshot(*old(txn)), schema@, *ty, p@, *slot) {
            Ok(()) => r matches Ok(v) && written(
                snapshot(*old(txn)),
                snapshot(*final(txn)),
                schema@,
                *ty,
                p@,
                *slot,
                v@,
            ),
            Err(e) => r == Err::<Value, InsertError>(e) && *final(txn) == *old(txn),
        },
{
    if !p.conforms_to(schema, ty) {
        return Err(InsertError::NotConforming);
    }
    if !slot.is_ready(txn) {
        return Err(InsertError::OutOfBounds);
    }
    Ok(write(schema, ty, p, slot, txn))
}

/// Writes a typed value into a slot of a live node and returns it as the
/// handle it is read back as: the value is used up, whether it is written or
/// not. It refuses what [`insert`] refuses; a value without an overlong
/// collection always conforms.
pub fn insert_prelim<P: ToPrelim>(
    value: P,
    slot: &Slot<'_>,
    txn: &mut yrs::TransactionMut<'_>,
) -> (r: Result<P::Return, InsertError>)
    requires
        snapshot(*old(txn)).live(slot.container()),
        slot.usable(snapshot(*old(txn))),
    ensures
        value.small() ==> conforms(P::Return::records(), P::Return::field_type(), value.model()),
        match insert_outcome(
            snapshot(*old(txn)),
            P::Return::records(),
            P::Return::field_type(),
            value.model(),
            *slot,
        ) {
            Ok(()) => r matches Ok(x) && written(
                snapshot(*old(txn)),
                snapshot(*final(txn)),
                P::Return::records(),
                P::Return::field_type(),
                value.model(),
                *slot,
                x.cell(),
            ),
            Err(e) => r == Err::<P::Return, InsertError>(e) && *final(txn) == *old(txn),
        },
{
    let schema = P::Return::schema();
    let ty = P::Return::exec_field_type();
    let p = value.to_prelim();
    match insert(&schema, &ty, &p, slot, txn) {
        Ok(v) => Ok(P::Return::from_validated(v)),
        Err(e) => Err(e),
    }
}

} // verus!
