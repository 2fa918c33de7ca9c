//! What holds of writing and reading together.

use crate::doc::{Cell, DocView};
use crate::materialize::{
    holds,
    holds_from,
    lemma_holds_transfer,
    present_name,
    written,
    Slot,
};
use crate::prelim::{conforms, PrelimView};
use crate::schema::{FieldType, FieldView, RecordView};
use crate::uuid::{lemma_uuid_round_trip, uuid_of};
use crate::yrs_basic_types::{decode_bool, decode_datetime, decode_duration};
use crate::yrs_struct::{check, check_fields, check_items, field_read};
use crate::yrs_wrapper_error::ErrorView;
use vstd::prelude::*;

verus! {

/// What stands for a value through new nodes stands for it, whatever the
/// document held before.
pub proof fn lemma_holds_from_any_base(
    base: DocView,
    d: DocView,
    s: Seq<RecordView>,
    ty: FieldType,
    cell: Cell,
    p: PrelimView,
)
    requires
        holds_from(base, d, s, ty, cell, p),
    ensures
        holds(d, s, ty, cell, p),
{
    lemma_holds_transfer(base, d, DocView::empty(), d, s, ty, cell, p);
}

/// Round trip: what was written for a value stands for that value in the
/// document, and it decodes as the value's type, at any depth of nesting.
pub proof fn lemma_write_round_trip(
    pre: DocView,
    post: DocView,
    s: Seq<RecordView>,
    ty: FieldType,
    p: PrelimView,
    slot: Slot<'_>,
    cell: Cell,
)
    requires
        conforms(s, ty, p),
        written(pre, post, s, ty, p, slot, cell),
    ensures
        holds(post, s, ty, cell, p),
        check(post, s, ty, cell) is Ok,
{
    lemma_holds_from_any_base(slot.before(pre), post, s, ty, cell, p);
    lemma_written_value_decodes(slot.before(pre), post, s, ty, cell, p);
}

/// A value that is written under a key takes the place of what stood there:
/// a node at or below the old entry is a node no more, and every other node
/// but the one written into stays a node and holds what it held.
pub proof fn lemma_write_replaces(
    pre: DocView,
    post: DocView,
    s: Seq<RecordView>,
    ty: FieldType,
    p: PrelimView,
    slot: Slot<'_>,
    cell: Cell,
    n: Cell,
)
    requires
        written(pre, post, s, ty, p, slot, cell),
        slot matches Slot::Key(map, key) && pre.maps[*map].contains_key(key@),
        pre.has_node(n),
        n != slot.container(),
    ensures
        slot matches Slot::Key(map, key) ==> (post.has_node(n) <==> !pre.under(
            pre.maps[*map][key@],
            n,
        )),
        post.has_node(n) ==> match n {
            Cell::YMap(m) => post.maps[m] == pre.maps[m],
            Cell::YArray(a) => post.arrays[a] == pre.arrays[a],
            Cell::YText(t) => post.texts[t] == pre.texts[t],
            _ => true,
        },
{
    let before = slot.before(pre);
    if before.has_node(n) {
        match n {
            Cell::YMap(m) => assert(post.maps.contains_key(m)),
            Cell::YArray(a) => assert(post.arrays.contains_key(a)),
            Cell::YText(t) => assert(post.texts.contains_key(t)),
            _ => {},
        }
    } else {
        assert(!post.has_node(n));
    }
}

/// What stands for a value can be read: nothing at or below it is
/// unreadable.
pub proof fn lemma_holds_is_readable(
    base: DocView,
    d: DocView,
    s: Seq<RecordView>,
    ty: FieldType,
    cell: Cell,
    p: PrelimView,
)
    requires
        d.well_formed(),
        holds_from(base, d, s, ty, cell, p),
    ensures
        d.readable(cell),
    decreases p,
{
    match p {
        PrelimView::Record(fs) => {
            let node = cell->YMap_0;
            let fields = s[ty->Record_0 as int].fields;
            assert forall|key: Seq<char>| d.maps[node].contains_key(key) implies {
                &&& !(#[trigger] d.maps[node][key] is Unreadable)
                &&& d.child_ok(cell, d.maps[node][key])
                &&& d.readable(d.maps[node][key])
            } by {
                assert(present_name(fields, fs, fs.len() as int, key));
                let k = choose|k: int|
                    0 <= k < fs.len() && fs[k] is Some && #[trigger] fields[k].name == key;
                match fs[k] {
                    Some(fp) => {
                        lemma_holds_is_readable(base, d, s, fields[k].ty, d.maps[node][key], fp);
                    },
                    None => {},
                }
            }
        },
        PrelimView::List(xs) => {
            let node = cell->YArray_0;
            let inner = ty->Collection_0;
            assert forall|i: int| 0 <= i < d.arrays[node].len() implies {
                &&& !(#[trigger] d.arrays[node][i] is Unreadable)
                &&& d.child_ok(cell, d.arrays[node][i])
                &&& d.readable(d.arrays[node][i])
            } by {
                lemma_holds_is_readable(base, d, s, *inner, d.arrays[node][i], xs[i]);
            }
        },
        _ => {},
    }
}

/// What has been written can be read.
pub proof fn lemma_written_is_readable(
    pre: DocView,
    post: DocView,
    s: Seq<RecordView>,
    ty: FieldType,
    p: PrelimView,
    slot: Slot<'_>,
    cell: Cell,
)
    requires
        written(pre, post, s, ty, p, slot, cell),
    ensures
        post.readable(cell),
{
    lemma_holds_is_readable(slot.before(pre), post, s, ty, cell, p);
}

/// What could be read before a write can be read after it, as long as it is
/// still there: the node that was written into too, and every node above
/// it.
pub proof fn lemma_readable_kept(
    pre: DocView,
    post: DocView,
    s: Seq<RecordView>,
    ty: FieldType,
    p: PrelimView,
    slot: Slot<'_>,
    cell: Cell,
    n: Cell,
)
    requires
        slot.ready(pre),
        written(pre, post, s, ty, p, slot, cell),
        pre.readable(n),
        pre.live(n),
        post.live(n),
    ensures
        post.readable(n),
    decreases post.heights[n],
{
    let before = slot.before(pre);
    lemma_written_is_readable(pre, post, s, ty, p, slot, cell);
    match n {
        Cell::YMap(m) => {
            assert(post.has_node(n));
            assert forall|k: Seq<char>| post.maps[m].contains_key(k) implies {
                &&& !(#[trigger] post.maps[m][k] is Unreadable)
                &&& post.child_ok(n, post.maps[m][k])
                &&& post.readable(post.maps[m][k])
            } by {
                let child = post.maps[m][k];
                if child != cell || n != slot.container() {
                    if n != slot.container() {
                        assert(before.maps.contains_key(m));
                    }
                    assert(pre.maps[m].contains_key(k) && pre.maps[m][k] == child);
                    lemma_readable_kept(pre, post, s, ty, p, slot, cell, child);
                }
            }
        },
        Cell::YArray(a) => {
            assert(post.has_node(n));
            assert forall|i: int| 0 <= i < post.arrays[a].len() implies {
                &&& !(#[trigger] post.arrays[a][i] is Unreadable)
                &&& post.child_ok(n, post.arrays[a][i])
                &&& post.readable(post.arrays[a][i])
            } by {
                let child = post.arrays[a][i];
                if n != slot.container() {
                    assert(before.arrays.contains_key(a));
                    assert(pre.arrays[a][i] == child);
                    lemma_readable_kept(pre, post, s, ty, p, slot, cell, child);
                } else if child != cell {
                    let index = slot->Index_1 as int;
                    let j = if i < index {
                        i
                    } else {
                        i - 1
                    };
                    assert(post.arrays[a] == pre.arrays[a].insert(index, cell));
                    assert(0 <= j < pre.arrays[a].len());
                    assert(pre.arrays[a][j] == child);
                    lemma_readable_kept(pre, post, s, ty, p, slot, cell, child);
                }
            }
        },
        _ => {},
    }
}

/// A cell that stands for a value of a type decodes as that type, however
/// deep the value nests.
pub proof fn lemma_written_value_decodes(
    base: DocView,
    d: DocView,
    s: Seq<RecordView>,
    ty: FieldType,
    cell: Cell,
    p: PrelimView,
)
    requires
        d.well_formed(),
        conforms(s, ty, p),
        holds_from(base, d, s, ty, cell, p),
    ensures
        check(d, s, ty, cell) is Ok,
    decreases p, 1nat, 0nat,
{
    match p {
        PrelimView::Record(fs) => {
            lemma_written_fields_decode(base, d, s, ty, cell, p, 0);
        },
        PrelimView::List(xs) => {
            lemma_written_items_decode(base, d, s, ty, cell, p, 0);
        },
        PrelimView::Uuid(bytes) => {
            lemma_uuid_round_trip(bytes);
        },
        _ => {},
    }
}

proof fn lemma_written_fields_decode(
    base: DocView,
    d: DocView,
    s: Seq<RecordView>,
    ty: FieldType,
    cell: Cell,
    p: PrelimView,
    from: nat,
)
    requires
        d.well_formed(),
        conforms(s, ty, p),
        holds_from(base, d, s, ty, cell, p),
        p is Record,
    ensures
        check_fields(d, s, s[ty->Record_0 as int].fields, cell->YMap_0, from) is Ok,
    decreases p, 0nat, s[ty->Record_0 as int].fields.len() - from,
{
    let fs = p->Record_0;
    let fields = s[ty->Record_0 as int].fields;
    let node = cell->YMap_0;
    if from < fields.len() {
        match fs[from as int] {
            Some(fp) => {
                lemma_written_value_decodes(
                    base,
                    d,
                    s,
                    fields[from as int].ty,
                    d.maps[node][fields[from as int].name],
                    fp,
                );
            },
            None => {},
        }
        lemma_written_fields_decode(base, d, s, ty, cell, p, from + 1);
    }
}

proof fn lemma_written_items_decode(
    base: DocView,
    d: DocView,
    s: Seq<RecordView>,
    ty: FieldType,
    cell: Cell,
    p: PrelimView,
    from: nat,
)
    requires
        d.well_formed(),
        conforms(s, ty, p),
        holds_from(base, d, s, ty, cell, p),
        p is List,
    ensures
        check_items(d, s, *ty->Collection_0, cell->YArray_0, from) is Ok,
    decreases p, 0nat, p->List_0.len() - from,
{
    let xs = p->List_0;
    let node = cell->YArray_0;
    if from < xs.len() {
        lemma_written_value_decodes(
            base,
            d,
            s,
            *ty->Collection_0,
            d.arrays[node][from as int],
            xs[from as int],
        );
        lemma_written_items_decode(base, d, s, ty, cell, p, from + 1);
    }
}

/// Round trip of a record: where a map node stands for a record value,
/// reading any field gives back what was written. A field that is present
/// reads as a cell that stands for the field's value, and a field that was
/// left out reads as absent.
pub proof fn lemma_record_round_trip(
    d: DocView,
    s: Seq<RecordView>,
    r: usize,
    node: yrs::MapRef,
    fs: Seq<Option<PrelimView>>,
    k: int,
)
    requires
        d.well_formed(),
        conforms(s, FieldType::Record(r), PrelimView::Record(fs)),
        holds(d, s, FieldType::Record(r), Cell::YMap(node), PrelimView::Record(fs)),
        0 <= k < fs.len(),
    ensures
        match fs[k] {
            Some(fp) => field_read(d, s, s[r as int].fields[k], node) matches Some(Ok(cell))
                && holds(d, s, s[r as int].fields[k].ty, cell, fp),
            None => field_read(d, s, s[r as int].fields[k], node) is None,
        },
{
    let field = s[r as int].fields[k];
    match fs[k] {
        Some(fp) => {
            lemma_written_value_decodes(
                DocView::empty(),
                d,
                s,
                field.ty,
                d.maps[node][field.name],
                fp,
            );
        },
        None => {},
    }
}

/// Round trip of a collection: where an array node stands for a list, it has
/// the list's length, and each element decodes and stands for the list's
/// element at the same index.
pub proof fn lemma_collection_round_trip(
    d: DocView,
    s: Seq<RecordView>,
    inner: FieldType,
    node: yrs::ArrayRef,
    xs: Seq<PrelimView>,
    i: int,
)
    requires
        d.well_formed(),
        conforms(s, FieldType::Collection(Box::new(inner)), PrelimView::List(xs)),
        holds(
            d,
            s,
            FieldType::Collection(Box::new(inner)),
            Cell::YArray(node),
            PrelimView::List(xs),
        ),
        0 <= i < xs.len(),
    ensures
        d.arrays[node].len() == xs.len(),
        check(d, s, inner, d.arrays[node][i]) is Ok,
        holds(d, s, inner, d.arrays[node][i], xs[i]),
{
    lemma_written_value_decodes(DocView::empty(), d, s, inner, d.arrays[node][i], xs[i]);
}

/// Round trip of the primitive types, of text and of UUIDs: a cell that
/// stands for a boolean, a timestamp or a duration decodes to exactly that
/// value, one that stands for a text is a text node with exactly those
/// characters, and one that stands for a UUID is a text node whose text
/// reads as exactly those bytes.
pub proof fn lemma_scalar_round_trip(
    d: DocView,
    s: Seq<RecordView>,
    ty: FieldType,
    cell: Cell,
    p: PrelimView,
)
    requires
        conforms(s, ty, p),
        holds(d, s, ty, cell, p),
    ensures
        p matches PrelimView::Bool(b) ==> decode_bool(cell) == Ok::<bool, ErrorView>(b),
        p matches PrelimView::DateTime(n) ==> decode_datetime(cell) == Ok::<i64, ErrorView>(n),
        p matches PrelimView::Duration(n) ==> decode_duration(cell) == Ok::<i64, ErrorView>(n),
        p matches PrelimView::Text(text) ==> cell is YText && d.texts[cell->YText_0] == text,
        p matches PrelimView::Uuid(bytes) ==> cell is YText && uuid_of(d.texts[cell->YText_0])
            == Some(bytes),
{
    if let PrelimView::Uuid(bytes) = p {
        lemma_uuid_round_trip(bytes);
    }
}

/// An optional field that was never written is told apart from one that was
/// written empty: the first reads as absent, the second as a text node
/// without characters.
pub proof fn lemma_absent_is_not_empty(
    d: DocView,
    s: Seq<RecordView>,
    r: usize,
    node: yrs::MapRef,
    fs: Seq<Option<PrelimView>>,
    k: int,
)
    requires
        d.well_formed(),
        conforms(s, FieldType::Record(r), PrelimView::Record(fs)),
        holds(d, s, FieldType::Record(r), Cell::YMap(node), PrelimView::Record(fs)),
        0 <= k < fs.len(),
        !s[r as int].fields[k].required,
    ensures
        fs[k] is None ==> field_read(d, s, s[r as int].fields[k], node) is None,
        fs[k] matches Some(PrelimView::Text(text)) ==> (text.len() == 0 ==> (field_read(
            d,
            s,
            s[r as int].fields[k],
            node,
        ) matches Some(Ok(Cell::YText(t))) && d.texts[t].len() == 0)),
{
    lemma_record_round_trip(d, s, r, node, fs, k);
}

/// A required field without an entry is an error and never a default: the
/// field reads as [`ErrorView::MissingAttribute`] with its name, and the
/// record as a whole does not decode.
pub proof fn lemma_missing_required_field(
    d: DocView,
    s: Seq<RecordView>,
    r: usize,
    node: yrs::MapRef,
    k: int,
)
    requires
        0 <= k < s[r as int].fields.len(),
        s[r as int].fields[k].required,
        !d.maps[node].contains_key(s[r as int].fields[k].name),
    ensures
        field_read(d, s, s[r as int].fields[k], node) == Some(
            Err::<Cell, ErrorView>(
                ErrorView::MissingAttribute { attr: s[r as int].fields[k].name },
            ),
        ),
        check(d, s, FieldType::Record(r), Cell::YMap(node)) is Err,
{
    lemma_fields_fail_from(d, s, s[r as int].fields, node, k, 0);
}

proof fn lemma_fields_fail_from(
    d: DocView,
    s: Seq<RecordView>,
    fields: Seq<FieldView>,
    node: yrs::MapRef,
    k: int,
    from: nat,
)
    requires
        from <= k < fields.len(),
        fields[k].required,
        !d.maps[node].contains_key(fields[k].name),
    ensures
        check_fields(d, s, fields, node, from) is Err,
    decreases k - from,
{
    if from < k {
        lemma_fields_fail_from(d, s, fields, node, k, from + 1);
    }
}

/// Where every field before a required field without an entry reads
/// without an error, the record fails with that field's name. The entries
/// that are read are such as a read hands out: live and lower than the node.
pub proof fn lemma_first_missing_field(
    d: DocView,
    s: Seq<RecordView>,
    r: usize,
    node: yrs::MapRef,
    k: int,
)
    requires
        0 <= k < s[r as int].fields.len(),
        s[r as int].fields[k].required,
        !d.maps[node].contains_key(s[r as int].fields[k].name),
        forall|j: int|
            0 <= j < k ==> !reads_error(#[trigger] field_read(d, s, s[r as int].fields[j], node)),
        forall|j: int|
            0 <= j < k && d.maps[node].contains_key((#[trigger] s[r as int].fields[j]).name)
                ==> d.child_ok(Cell::YMap(node), d.maps[node][s[r as int].fields[j].name]),
    ensures
        check(d, s, FieldType::Record(r), Cell::YMap(node)) == Err::<(), ErrorView>(
            ErrorView::MissingAttribute { attr: s[r as int].fields[k].name },
        ),
{
    lemma_missing_field_from(d, s, s[r as int].fields, node, k, 0);
}

/// An error of reading a field names the field: the field that is missing,
/// or the field whose entry did not decode, with the entry's error as the
/// cause.
pub proof fn lemma_read_error_names_field(
    d: DocView,
    s: Seq<RecordView>,
    field: FieldView,
    node: yrs::MapRef,
)
    ensures
        field_read(d, s, field, node) matches Some(Err(e)) ==> e.field() == Some(field.name),
        d.maps[node].contains_key(field.name) ==> match check(
            d,
            s,
            field.ty,
            d.maps[node][field.name],
        ) {
            Ok(()) => field_read(d, s, field, node) == Some(
                Ok::<Cell, ErrorView>(d.maps[node][field.name]),
            ),
            Err(e) => field_read(d, s, field, node) == Some(
                Err::<Cell, ErrorView>(
                    ErrorView::FieldDecode { field: field.name, cause: Box::new(e) },
                ),
            ),
        },
{
}

/// Where a record does not decode, the error names one of its fields. The
/// entries are such as a read hands out: live and lower than the node.
pub proof fn lemma_record_error_names_a_field(
    d: DocView,
    s: Seq<RecordView>,
    r: usize,
    node: yrs::MapRef,
)
    requires
        forall|j: int|
            0 <= j < s[r as int].fields.len() && d.maps[node].contains_key(
                (#[trigger] s[r as int].fields[j]).name,
            ) ==> d.child_ok(Cell::YMap(node), d.maps[node][s[r as int].fields[j].name]),
    ensures
        check(d, s, FieldType::Record(r), Cell::YMap(node)) matches Err(e) ==> exists|k: int|
            0 <= k < s[r as int].fields.len() && e.field() == Some(
                (#[trigger] s[r as int].fields[k]).name,
            ),
{
    lemma_error_names_a_field_from(d, s, s[r as int].fields, node, 0);
}

proof fn lemma_error_names_a_field_from(
    d: DocView,
    s: Seq<RecordView>,
    fields: Seq<FieldView>,
    node: yrs::MapRef,
    from: nat,
)
    requires
        forall|j: int|
            from <= j < fields.len() && d.maps[node].contains_key((#[trigger] fields[j]).name)
                ==> d.child_ok(Cell::YMap(node), d.maps[node][fields[j].name]),
    ensures
        check_fields(d, s, fields, node, from) matches Err(e) ==> exists|k: int|
            from <= k < fields.len() && e.field() == Some((#[trigger] fields[k]).name),
    decreases fields.len() - from,
{
    if from < fields.len() {
        lemma_error_names_a_field_from(d, s, fields, node, from + 1);
        let here = check_fields(d, s, fields, node, from);
        if here is Err && here != check_fields(d, s, fields, node, from + 1) {
            assert(here->Err_0.field() == Some(fields[from as int].name));
        }
    }
}

/// Where the entry of a field is the first that does not decode, and no
/// required field before it is missing, the record fails with that field's
/// name and the entry's error. The entries that are read are such as a read
/// hands out: live and lower than the node.
pub proof fn lemma_first_malformed_field(
    d: DocView,
    s: Seq<RecordView>,
    r: usize,
    node: yrs::MapRef,
    k: int,
)
    requires
        0 <= k < s[r as int].fields.len(),
        d.maps[node].contains_key(s[r as int].fields[k].name),
        check(d, s, s[r as int].fields[k].ty, d.maps[node][s[r as int].fields[k].name]) is Err,
        forall|j: int|
            0 <= j < k ==> !reads_error(#[trigger] field_read(d, s, s[r as int].fields[j], node)),
        forall|j: int|
            0 <= j <= k && d.maps[node].contains_key((#[trigger] s[r as int].fields[j]).name)
                ==> d.child_ok(Cell::YMap(node), d.maps[node][s[r as int].fields[j].name]),
    ensures
        check(d, s, FieldType::Record(r), Cell::YMap(node)) == Err::<(), ErrorView>(
            ErrorView::FieldDecode {
                field: s[r as int].fields[k].name,
                cause: Box::new(
                    check(
                        d,
                        s,
                        s[r as int].fields[k].ty,
                        d.maps[node][s[r as int].fields[k].name],
                    )->Err_0,
                ),
            },
        ),
{
    lemma_malformed_field_from(d, s, s[r as int].fields, node, k, 0);
}

proof fn lemma_malformed_field_from(
    d: DocView,
    s: Seq<RecordView>,
    fields: Seq<FieldView>,
    node: yrs::MapRef,
    k: int,
    from: nat,
)
    requires
        from <= k < fields.len(),
        d.maps[node].contains_key(fields[k].name),
        check(d, s, fields[k].ty, d.maps[node][fields[k].name]) is Err,
        forall|j: int| from <= j < k ==> !reads_error(#[trigger] field_read(d, s, fields[j], node)),
        forall|j: int|
            from <= j <= k && d.maps[node].contains_key((#[trigger] fields[j]).name) ==> d.child_ok(
                Cell::YMap(node),
                d.maps[node][fields[j].name],
            ),
    ensures
        check_fields(d, s, fields, node, from) == Err::<(), ErrorView>(
            ErrorView::FieldDecode {
                field: fields[k].name,
                cause: Box::new(check(d, s, fields[k].ty, d.maps[node][fields[k].name])->Err_0),
            },
        ),
    decreases k - from,
{
    if from < k {
        assert(!reads_error(field_read(d, s, fields[from as int], node)));
        lemma_malformed_field_from(d, s, fields, node, k, from + 1);
    }
}

/// A malformed element invalidates the record that holds its collection,
/// and the error says where: where the entry of a field is an array node
/// whose element at `i` is the first that does not decode, and every field
/// before it reads without an error, the record fails with the field's
/// name, the element's index and the element's error.
pub proof fn lemma_malformed_element_in_field(
    d: DocView,
    s: Seq<RecordView>,
    r: usize,
    node: yrs::MapRef,
    k: int,
    inner: FieldType,
    array: yrs::ArrayRef,
    i: int,
)
    requires
        0 <= k < s[r as int].fields.len(),
        s[r as int].fields[k].ty == FieldType::Collection(Box::new(inner)),
        d.maps[node].contains_key(s[r as int].fields[k].name),
        d.maps[node][s[r as int].fields[k].name] == Cell::YArray(array),
        forall|j: int|
            0 <= j < k ==> !reads_error(#[trigger] field_read(d, s, s[r as int].fields[j], node)),
        forall|j: int|
            0 <= j <= k && d.maps[node].contains_key((#[trigger] s[r as int].fields[j]).name)
                ==> d.child_ok(Cell::YMap(node), d.maps[node][s[r as int].fields[j].name]),
        0 <= i < d.arrays[array].len(),
        forall|j: int|
            0 <= j <= i ==> d.child_ok(Cell::YArray(array), #[trigger] d.arrays[array][j]),
        check(d, s, inner, d.arrays[array][i]) is Err,
        forall|j: int| 0 <= j < i ==> check(d, s, inner, #[trigger] d.arrays[array][j]) is Ok,
    ensures
        check(d, s, FieldType::Record(r), Cell::YMap(node)) == Err::<(), ErrorView>(
            ErrorView::FieldDecode {
                field: s[r as int].fields[k].name,
                cause: Box::new(
                    ErrorView::ElementDecode {
                        index: i as nat,
                        cause: Box::new(check(d, s, inner, d.arrays[array][i])->Err_0),
                    },
                ),
            },
        ),
{
    lemma_first_malformed_element(d, s, inner, array, i);
    lemma_first_malformed_field(d, s, r, node, k);
}

/// What was read is an error.
pub open spec fn reads_error(r: Option<Result<Cell, ErrorView>>) -> bool {
    r is Some && r->Some_0 is Err
}

proof fn lemma_missing_field_from(
    d: DocView,
    s: Seq<RecordView>,
    fields: Seq<FieldView>,
    node: yrs::MapRef,
    k: int,
    from: nat,
)
    requires
        from <= k < fields.len(),
        fields[k].required,
        !d.maps[node].contains_key(fields[k].name),
        forall|j: int| from <= j < k ==> !reads_error(#[trigger] field_read(d, s, fields[j], node)),
        forall|j: int|
            from <= j < k && d.maps[node].contains_key((#[trigger] fields[j]).name) ==> d.child_ok(
                Cell::YMap(node),
                d.maps[node][fields[j].name],
            ),
    ensures
        check_fields(d, s, fields, node, from) == Err::<(), ErrorView>(
            ErrorView::MissingAttribute { attr: fields[k].name },
        ),
    decreases k - from,
{
    if from < k {
        assert(!reads_error(field_read(d, s, fields[from as int], node)));
        lemma_missing_field_from(d, s, fields, node, k, from + 1);
    }
}

/// Where the element at `i` of an array node is the first that does not
/// decode, the collection fails with that index and the element's error.
/// The elements up to it are such as a read hands out: live and lower than
/// the node.
pub proof fn lemma_first_malformed_element(
    d: DocView,
    s: Seq<RecordView>,
    inner: FieldType,
    node: yrs::ArrayRef,
    i: int,
)
    requires
        0 <= i < d.arrays[node].len(),
        forall|j: int|
            0 <= j <= i ==> d.child_ok(Cell::YArray(node), #[trigger] d.arrays[node][j]),
        check(d, s, inner, d.arrays[node][i]) is Err,
        forall|j: int| 0 <= j < i ==> check(d, s, inner, #[trigger] d.arrays[node][j]) is Ok,
    ensures
        check(d, s, FieldType::Collection(Box::new(inner)), Cell::YArray(node)) == Err::<
            (),
            ErrorView,
        >(
            ErrorView::ElementDecode {
                index: i as nat,
                cause: Box::new(check(d, s, inner, d.arrays[node][i])->Err_0),
            },
        ),
{
    lemma_malformed_element_from(d, s, inner, node, i, 0);
}

proof fn lemma_malformed_element_from(
    d: DocView,
    s: Seq<RecordView>,
    inner: FieldType,
    node: yrs::ArrayRef,
    i: int,
    from: nat,
)
    requires
        from <= i < d.arrays[node].len(),
        forall|j: int|
            from <= j <= i ==> d.child_ok(Cell::YArray(node), #[trigger] d.arrays[node][j]),
        check(d, s, inner, d.arrays[node][i]) is Err,
        forall|j: int| from <= j < i ==> check(d, s, inner, #[trigger] d.arrays[node][j]) is Ok,
    ensures
        check_items(d, s, inner, node, from) == Err::<(), ErrorView>(
            ErrorView::ElementDecode {
                index: i as nat,
                cause: Box::new(check(d, s, inner, d.arrays[node][i])->Err_0),
            },
        ),
    decreases i - from,
{
    if from < i {
        lemma_malformed_element_from(d, s, inner, node, i, from + 1);
    }
}

/// Once a collection has been validated, reading any of its elements does
/// not fail: each element below the length decodes.
pub proof fn lemma_attached_elements_decode(
    d: DocView,
    s: Seq<RecordView>,
    inner: FieldType,
    node: yrs::ArrayRef,
    i: int,
)
    requires
        check(d, s, FieldType::Collection(Box::new(inner)), Cell::YArray(node)) is Ok,
        0 <= i < d.arrays[node].len(),
    ensures
        check(d, s, inner, d.arrays[node][i]) is Ok,
{
    lemma_items_decode_from(d, s, inner, node, i, 0);
}

proof fn lemma_items_decode_from(
    d: DocView,
    s: Seq<RecordView>,
    inner: FieldType,
    node: yrs::ArrayRef,
    i: int,
    from: nat,
)
    requires
        check_items(d, s, inner, node, from) is Ok,
        from <= i < d.arrays[node].len(),
    ensures
        check(d, s, inner, d.arrays[node][i]) is Ok,
    decreases i - from,
{
    if from < i {
        lemma_items_decode_from(d, s, inner, node, i, from + 1);
    }
}

/// Validation of a collection is total: where each element of an array node
/// decodes, the collection decodes. The elements are such as a read hands
/// out: live and lower than the node.
pub proof fn lemma_valid_elements_attach(
    d: DocView,
    s: Seq<RecordView>,
    inner: FieldType,
    node: yrs::ArrayRef,
)
    requires
        forall|j: int|
            0 <= j < d.arrays[node].len() ==> d.child_ok(
                Cell::YArray(node),
                #[trigger] d.arrays[node][j],
            ) && check(d, s, inner, d.arrays[node][j]) is Ok,
    ensures
        check(d, s, FieldType::Collection(Box::new(inner)), Cell::YArray(node)) is Ok,
{
    lemma_items_attach_from(d, s, inner, node, 0);
}

proof fn lemma_items_attach_from(
    d: DocView,
    s: Seq<RecordView>,
    inner: FieldType,
    node: yrs::ArrayRef,
    from: nat,
)
    requires
        forall|j: int|
            from <= j < d.arrays[node].len() ==> d.child_ok(
                Cell::YArray(node),
                #[trigger] d.arrays[node][j],
            ) && check(d, s, inner, d.arrays[node][j]) is Ok,
    ensures
        check_items(d, s, inner, node, from) is Ok,
    decreases d.arrays[node].len() - from,
{
    if from < d.arrays[node].len() {
        lemma_items_attach_from(d, s, inner, node, from + 1);
    }
}

} // verus!
