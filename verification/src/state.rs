//! The schema of the application: to-dos with their planned and actual
//! executions, and the state that holds them.

use crate::doc::{Cell, DocView, Value};
use crate::laws::lemma_record_round_trip;
use crate::materialize::holds;
use crate::prelim::{conforms, Prelim, PrelimView, ToPrelim};
use crate::read_txn::ReadTxn;
use crate::schema::{Field, FieldType, FieldView, RecordType, RecordView, Schema};
use crate::try_from_yrs_value::{read_optional_as, read_required_as, typed_read, TryFromYrsValue};
use crate::ybox::YBox;
use crate::yrs_basic_types::{
    YBool,
    YBoolPrelim,
    YDateTime,
    YDateTimePrelim,
    YDuration,
    YDurationPrelim,
    YText,
};
use crate::yrs_struct::{check, field_read};
use crate::yrs_vec::{YrsVec, YrsVecPrelim};
use crate::yrs_wrapper_error::{ErrorView, YrsResult};
use vstd::pervasive::unreached;
use vstd::prelude::*;

verus! {

/// The index of the record type `PlannedExecution` in the schema.
pub const PLANNED_EXECUTION: usize = 0;

/// The index of the record type `ActualExecution` in the schema.
pub const ACTUAL_EXECUTION: usize = 1;

/// The index of the record type `Todo` in the schema.
pub const TODO: usize = 2;

/// The index of the record type `State` in the schema.
pub const STATE: usize = 3;

/// A required field.
pub open spec fn required(name: Seq<char>, ty: FieldType) -> FieldView {
    FieldView { name, ty, required: true }
}

/// An optional field.
pub open spec fn optional(name: Seq<char>, ty: FieldType) -> FieldView {
    FieldView { name, ty, required: false }
}

/// Field `k` of the record type at index `record` of the schema.
pub open spec fn field_of(record: usize, k: int) -> FieldView {
    records()[record as int].fields[k]
}

/// A collection of records of the type at index `r`.
pub open spec fn collection_of(r: usize) -> FieldType {
    FieldType::Collection(Box::new(FieldType::Record(r)))
}

/// The record types of the application's schema.
pub open spec fn records() -> Seq<RecordView> {
    seq![
        RecordView {
            name: "PlannedExecution"@,
            fields: seq![
                required("start"@, FieldType::DateTime),
                required("end"@, FieldType::DateTime),
            ],
        },
        RecordView {
            name: "ActualExecution"@,
            fields: seq![
                required("start"@, FieldType::DateTime),
                optional("end"@, FieldType::DateTime),
            ],
        },
        RecordView {
            name: "Todo"@,
            fields: seq![
                required("text"@, FieldType::Text),
                required("completed"@, FieldType::Bool),
                required("created_at"@, FieldType::DateTime),
                required("estimated_duration"@, FieldType::Duration),
                required("planned_executions"@, collection_of(PLANNED_EXECUTION)),
                required("actual_executions"@, collection_of(ACTUAL_EXECUTION)),
                required("child_todos"@, collection_of(TODO)),
            ],
        },
        RecordView {
            name: "State"@,
            fields: seq![required("todos"@, collection_of(TODO))],
        },
    ]
}

fn field(name: &str, ty: FieldType, required: bool) -> (f: Field)
    ensures
        f@ == (FieldView { name: name@, ty, required }),
{
    Field { name: name.to_owned(), ty, required }
}

fn collection(r: usize) -> (ty: FieldType)
    ensures
        ty == collection_of(r),
{
    FieldType::Collection(Box::new(FieldType::Record(r)))
}

/// The field names of each record type differ from one another.
proof fn lemma_names_differ()
    ensures
        crate::schema::schema_ok(records()),
{
    reveal_strlit("start");
    reveal_strlit("end");
    reveal_strlit("text");
    reveal_strlit("completed");
    reveal_strlit("created_at");
    reveal_strlit("estimated_duration");
    reveal_strlit("planned_executions");
    reveal_strlit("actual_executions");
    reveal_strlit("child_todos");
    reveal_strlit("todos");
    // Most names differ in length; the two of 18 characters differ in the
    // first.
    let s = records();
    assert(s[0].fields[0].name.len() == 5 && s[0].fields[1].name.len() == 3);
    let f = s[2].fields;
    assert(f[0].name.len() == 4 && f[1].name.len() == 9 && f[2].name.len() == 10);
    assert(f[5].name.len() == 17 && f[6].name.len() == 11);
    assert(f[3].name[0] != f[4].name[0]);
    assert(crate::schema::types_closed(f, 4)) by {
        reveal_with_fuel(FieldType::closed, 3);
    }
}

/// Builds the application's schema.
pub fn schema() -> (s: Schema)
    ensures
        s@ == records(),
{
    let mut planned: Vec<Field> = Vec::new();
    planned.push(field("start", FieldType::DateTime, true));
    planned.push(field("end", FieldType::DateTime, true));
    let mut actual: Vec<Field> = Vec::new();
    actual.push(field("start", FieldType::DateTime, true));
    actual.push(field("end", FieldType::DateTime, false));
    let mut todo: Vec<Field> = Vec::new();
    todo.push(field("text", FieldType::Text, true));
    todo.push(field("completed", FieldType::Bool, true));
    todo.push(field("created_at", FieldType::DateTime, true));
    todo.push(field("estimated_duration", FieldType::Duration, true));
    todo.push(field("planned_executions", collection(PLANNED_EXECUTION), true));
    todo.push(field("actual_executions", collection(ACTUAL_EXECUTION), true));
    todo.push(field("child_todos", collection(TODO), true));
    let mut state: Vec<Field> = Vec::new();
    state.push(field("todos", collection(TODO), true));
    let mut all: Vec<RecordType> = Vec::new();
    all.push(RecordType { name: "PlannedExecution".to_owned(), fields: planned });
    all.push(RecordType { name: "ActualExecution".to_owned(), fields: actual });
    all.push(RecordType { name: "Todo".to_owned(), fields: todo });
    all.push(RecordType { name: "State".to_owned(), fields: state });
    proof {
        let got = crate::schema::record_views(all@);
        let want = records();
        assert(got[0].fields =~= want[0].fields);
        assert(got[1].fields =~= want[1].fields);
        assert(got[2].fields =~= want[2].fields);
        assert(got[3].fields =~= want[3].fields);
        lemma_names_differ();
    }
    match Schema::new(all) {
        Ok(s) => s,
        Err(_) => {
            proof {
                assert(false);
            }
            Schema::empty()
        },
    }
}


/// A planned execution that was read from the document: a handle to its
/// map node.
#[derive(Debug)]
pub struct PlannedExecution {
    map: yrs::MapRef,
}

impl Clone for PlannedExecution {
    fn clone(&self) -> (r: Self)
        ensures
            r.node() == self.node(),
    {
        PlannedExecution { map: self.map.clone() }
    }
}

impl TryFromYrsValue for PlannedExecution {
    open spec fn records() -> Seq<RecordView> {
        records()
    }

    open spec fn field_type() -> FieldType {
        FieldType::Record(PLANNED_EXECUTION)
    }

    open spec fn cell(&self) -> Cell {
        Cell::YMap(self.node())
    }

    fn schema() -> Schema {
        schema()
    }

    fn exec_field_type() -> FieldType {
        FieldType::Record(PLANNED_EXECUTION)
    }

    fn from_validated(value: Value) -> PlannedExecution {
        match value {
            Value::YMap(map) => PlannedExecution { map },
            _ => unreached(),
        }
    }
}

impl PlannedExecution {
    /// The map node that the handle points to.
    pub closed spec fn node(&self) -> yrs::MapRef {
        self.map
    }

    /// The engine's handle of the map node.
    pub fn as_map_ref(&self) -> (map: &yrs::MapRef)
        ensures
            *map == self.node(),
    {
        &self.map
    }

    /// Attaches to a map node that holds a planned execution: `Ok` exactly where
    /// every required field is there and every field that is there decodes,
    /// and else the error of the first field that is not in order.
    pub fn parse<R: ReadTxn>(map: yrs::MapRef, txn: &R) -> (r: YrsResult<PlannedExecution>)
        requires
            txn.view().readable(Cell::YMap(map)),
            txn.view().maps.contains_key(map),
        ensures
            match check(
                txn.view(),
                records(),
                FieldType::Record(PLANNED_EXECUTION),
                Cell::YMap(map),
            ) {
                Ok(()) => r matches Ok(x) && x.node() == map,
                Err(e) => r matches Err(got) && got@ == e,
            },
    {
        Self::try_from_yrs_value(Value::YMap(map), txn)
    }

    /// When the execution is planned to start.
    pub fn start<R: ReadTxn>(&self, txn: &R) -> (r: YrsResult<YDateTime>)
        requires
            txn.view().readable(Cell::YMap(self.node())),
            txn.view().maps.contains_key(self.node()),
        ensures
            typed_read(
                txn.view(),
                Some(r),
                field_read(txn.view(), records(), field_of(PLANNED_EXECUTION, 0), self.node()),
            ),
    {
        read_required_as(&schema(), PLANNED_EXECUTION, 0, &self.map, txn)
    }

    /// When the execution is planned to end.
    pub fn end<R: ReadTxn>(&self, txn: &R) -> (r: YrsResult<YDateTime>)
        requires
            txn.view().readable(Cell::YMap(self.node())),
            txn.view().maps.contains_key(self.node()),
        ensures
            typed_read(
                txn.view(),
                Some(r),
                field_read(txn.view(), records(), field_of(PLANNED_EXECUTION, 1), self.node()),
            ),
    {
        read_required_as(&schema(), PLANNED_EXECUTION, 1, &self.map, txn)
    }
}

/// An actual execution that was read from the document: a handle to its
/// map node.
#[derive(Debug)]
pub struct ActualExecution {
    map: yrs::MapRef,
}

impl Clone for ActualExecution {
    fn clone(&self) -> (r: Self)
        ensures
            r.node() == self.node(),
    {
        ActualExecution { map: self.map.clone() }
    }
}

impl TryFromYrsValue for ActualExecution {
    open spec fn records() -> Seq<RecordView> {
        records()
    }

    open spec fn field_type() -> FieldType {
        FieldType::Record(ACTUAL_EXECUTION)
    }

    open spec fn cell(&self) -> Cell {
        Cell::YMap(self.node())
    }

    fn schema() -> Schema {
        schema()
    }

    fn exec_field_type() -> FieldType {
        FieldType::Record(ACTUAL_EXECUTION)
    }

    fn from_validated(value: Value) -> ActualExecution {
        match value {
            Value::YMap(map) => ActualExecution { map },
            _ => unreached(),
        }
    }
}

impl ActualExecution {
    /// The map node that the handle points to.
    pub closed spec fn node(&self) -> yrs::MapRef {
        self.map
    }

    /// The engine's handle of the map node.
    pub fn as_map_ref(&self) -> (map: &yrs::MapRef)
        ensures
            *map == self.node(),
    {
        &self.map
    }

    /// Attaches to a map node that holds an actual execution: `Ok` exactly where
    /// every required field is there and every field that is there decodes,
    /// and else the error of the first field that is not in order.
    pub fn parse<R: ReadTxn>(map: yrs::MapRef, txn: &R) -> (r: YrsResult<ActualExecution>)
        requires
            txn.view().readable(Cell::YMap(map)),
            txn.view().maps.contains_key(map),
        ensures
            match check(
                txn.view(),
                records(),
                FieldType::Record(ACTUAL_EXECUTION),
                Cell::YMap(map),
            ) {
                Ok(()) => r matches Ok(x) && x.node() == map,
                Err(e) => r matches Err(got) && got@ == e,
            },
    {
        Self::try_from_yrs_value(Value::YMap(map), txn)
    }

    /// When the execution started.
    pub fn start<R: ReadTxn>(&self, txn: &R) -> (r: YrsResult<YDateTime>)
        requires
            txn.view().readable(Cell::YMap(self.node())),
            txn.view().maps.contains_key(self.node()),
        ensures
            typed_read(
                txn.view(),
                Some(r),
                field_read(txn.view(), records(), field_of(ACTUAL_EXECUTION, 0), self.node()),
            ),
    {
        read_required_as(&schema(), ACTUAL_EXECUTION, 0, &self.map, txn)
    }

    /// When the execution ended: `None` while it is still running, and an
    /// error where an end is there and does not decode.
    pub fn end<R: ReadTxn>(&self, txn: &R) -> (r: Option<YrsResult<YDateTime>>)
        requires
            txn.view().readable(Cell::YMap(self.node())),
            txn.view().maps.contains_key(self.node()),
        ensures
            typed_read(
                txn.view(),
                r,
                field_read(txn.view(), records(), field_of(ACTUAL_EXECUTION, 1), self.node()),
            ),
    {
        read_optional_as(&schema(), ACTUAL_EXECUTION, 1, &self.map, txn)
    }
}

/// A to-do that was read from the document: a handle to its map node.
#[derive(Debug)]
pub struct Todo {
    map: yrs::MapRef,
}

impl Clone for Todo {
    fn clone(&self) -> (r: Self)
        ensures
            r.node() == self.node(),
    {
        Todo { map: self.map.clone() }
    }
}

impl TryFromYrsValue for Todo {
    open spec fn records() -> Seq<RecordView> {
        records()
    }

    open spec fn field_type() -> FieldType {
        FieldType::Record(TODO)
    }

    open spec fn cell(&self) -> Cell {
        Cell::YMap(self.node())
    }

    fn schema() -> Schema {
        schema()
    }

    fn exec_field_type() -> FieldType {
        FieldType::Record(TODO)
    }

    fn from_validated(value: Value) -> Todo {
        match value {
            Value::YMap(map) => Todo { map },
            _ => unreached(),
        }
    }
}

impl Todo {
    /// The map node that the handle points to.
    pub closed spec fn node(&self) -> yrs::MapRef {
        self.map
    }

    /// The engine's handle of the map node.
    pub fn as_map_ref(&self) -> (map: &yrs::MapRef)
        ensures
            *map == self.node(),
    {
        &self.map
    }

    /// Attaches to a map node that holds a to-do: `Ok` exactly where
    /// every required field is there and every field that is there decodes,
    /// and else the error of the first field that is not in order.
    pub fn parse<R: ReadTxn>(map: yrs::MapRef, txn: &R) -> (r: YrsResult<Todo>)
        requires
            txn.view().readable(Cell::YMap(map)),
            txn.view().maps.contains_key(map),
        ensures
            match check(
                txn.view(),
                records(),
                FieldType::Record(TODO),
                Cell::YMap(map),
            ) {
                Ok(()) => r matches Ok(x) && x.node() == map,
                Err(e) => r matches Err(got) && got@ == e,
            },
    {
        Self::try_from_yrs_value(Value::YMap(map), txn)
    }

    /// What is to be done.
    pub fn text<R: ReadTxn>(&self, txn: &R) -> (r: YrsResult<YText>)
        requires
            txn.view().readable(Cell::YMap(self.node())),
            txn.view().maps.contains_key(self.node()),
        ensures
            typed_read(
                txn.view(),
                Some(r),
                field_read(txn.view(), records(), field_of(TODO, 0), self.node()),
            ),
    {
        read_required_as(&schema(), TODO, 0, &self.map, txn)
    }

    /// Whether it is done.
    pub fn completed<R: ReadTxn>(&self, txn: &R) -> (r: YrsResult<YBool>)
        requires
            txn.view().readable(Cell::YMap(self.node())),
            txn.view().maps.contains_key(self.node()),
        ensures
            typed_read(
                txn.view(),
                Some(r),
                field_read(txn.view(), records(), field_of(TODO, 1), self.node()),
            ),
    {
        read_required_as(&schema(), TODO, 1, &self.map, txn)
    }

    /// When the to-do was created.
    pub fn created_at<R: ReadTxn>(&self, txn: &R) -> (r: YrsResult<YDateTime>)
        requires
            txn.view().readable(Cell::YMap(self.node())),
            txn.view().maps.contains_key(self.node()),
        ensures
            typed_read(
                txn.view(),
                Some(r),
                field_read(txn.view(), records(), field_of(TODO, 2), self.node()),
            ),
    {
        read_required_as(&schema(), TODO, 2, &self.map, txn)
    }

    /// How long it is expected to take.
    pub fn estimated_duration<R: ReadTxn>(&self, txn: &R) -> (r: YrsResult<YDuration>)
        requires
            txn.view().readable(Cell::YMap(self.node())),
            txn.view().maps.contains_key(self.node()),
        ensures
            typed_read(
                txn.view(),
                Some(r),
                field_read(txn.view(), records(), field_of(TODO, 3), self.node()),
            ),
    {
        read_required_as(&schema(), TODO, 3, &self.map, txn)
    }

    /// When it is planned to be worked on. Attaching validates every
    /// element.
    pub fn planned_executions<R: ReadTxn>(&self, txn: &R) -> (r: YrsResult<
        YrsVec<PlannedExecution>,
    >)
        requires
            txn.view().readable(Cell::YMap(self.node())),
            txn.view().maps.contains_key(self.node()),
        ensures
            typed_read(
                txn.view(),
                Some(r),
                field_read(txn.view(), records(), field_of(TODO, 4), self.node()),
            ),
    {
        read_required_as(&schema(), TODO, 4, &self.map, txn)
    }

    /// When it was worked on. Attaching validates every element.
    pub fn actual_executions<R: ReadTxn>(&self, txn: &R) -> (r: YrsResult<YrsVec<ActualExecution>>)
        requires
            txn.view().readable(Cell::YMap(self.node())),
            txn.view().maps.contains_key(self.node()),
        ensures
            typed_read(
                txn.view(),
                Some(r),
                field_read(txn.view(), records(), field_of(TODO, 5), self.node()),
            ),
    {
        read_required_as(&schema(), TODO, 5, &self.map, txn)
    }

    /// The to-dos that it is split into. Attaching validates every element,
    /// with the to-dos below it.
    pub fn child_todos<R: ReadTxn>(&self, txn: &R) -> (r: YrsResult<YBox<YrsVec<Todo>>>)
        requires
            txn.view().readable(Cell::YMap(self.node())),
            txn.view().maps.contains_key(self.node()),
        ensures
            typed_read(
                txn.view(),
                Some(r),
                field_read(txn.view(), records(), field_of(TODO, 6), self.node()),
            ),
    {
        read_required_as(&schema(), TODO, 6, &self.map, txn)
    }
}

/// The state of the application that was read from the document: a handle
/// to its map node.
#[derive(Debug)]
pub struct State {
    map: yrs::MapRef,
}

impl Clone for State {
    fn clone(&self) -> (r: Self)
        ensures
            r.node() == self.node(),
    {
        State { map: self.map.clone() }
    }
}

impl TryFromYrsValue for State {
    open spec fn records() -> Seq<RecordView> {
        records()
    }

    open spec fn field_type() -> FieldType {
        FieldType::Record(STATE)
    }

    open spec fn cell(&self) -> Cell {
        Cell::YMap(self.node())
    }

    fn schema() -> Schema {
        schema()
    }

    fn exec_field_type() -> FieldType {
        FieldType::Record(STATE)
    }

    fn from_validated(value: Value) -> State {
        match value {
            Value::YMap(map) => State { map },
            _ => unreached(),
        }
    }
}

impl State {
    /// The map node that the handle points to.
    pub closed spec fn node(&self) -> yrs::MapRef {
        self.map
    }

    /// The engine's handle of the map node.
    pub fn as_map_ref(&self) -> (map: &yrs::MapRef)
        ensures
            *map == self.node(),
    {
        &self.map
    }

    /// Attaches to a map node that holds the state: `Ok` exactly where
    /// every required field is there and every field that is there decodes,
    /// and else the error of the first field that is not in order.
    pub fn parse<R: ReadTxn>(map: yrs::MapRef, txn: &R) -> (r: YrsResult<State>)
        requires
            txn.view().readable(Cell::YMap(map)),
            txn.view().maps.contains_key(map),
        ensures
            match check(
                txn.view(),
                records(),
                FieldType::Record(STATE),
                Cell::YMap(map),
            ) {
                Ok(()) => r matches Ok(x) && x.node() == map,
                Err(e) => r matches Err(got) && got@ == e,
            },
    {
        Self::try_from_yrs_value(Value::YMap(map), txn)
    }

    /// The to-dos at the top level. Attaching validates every element, with
    /// the to-dos below it.
    pub fn todos<R: ReadTxn>(&self, txn: &R) -> (r: YrsResult<YrsVec<Todo>>)
        requires
            txn.view().readable(Cell::YMap(self.node())),
            txn.view().maps.contains_key(self.node()),
        ensures
            typed_read(
                txn.view(),
                Some(r),
                field_read(txn.view(), records(), field_of(STATE, 0), self.node()),
            ),
    {
        read_required_as(&schema(), STATE, 0, &self.map, txn)
    }
}

/// A record value conforms where it has an entry for each field of its type
/// and each entry conforms to the field.
proof fn lemma_record_conforms(r: usize, fs: Seq<Option<PrelimView>>)
    requires
        r < records().len(),
        fs.len() == records()[r as int].fields.len(),
        forall|k: int|
            0 <= k < fs.len() ==> match #[trigger] fs[k] {
                Some(fp) => conforms(records(), records()[r as int].fields[k].ty, fp),
                None => !records()[r as int].fields[k].required,
            },
    ensures
        conforms(records(), FieldType::Record(r), PrelimView::Record(fs)),
{
}

/// A planned execution that is about to be written.
#[derive(Debug)]
pub struct PlannedExecutionPrelim {
    pub start: YDateTimePrelim,
    pub end: YDateTimePrelim,
}

/// An actual execution that is about to be written. It has no end while it
/// is still running.
#[derive(Debug)]
pub struct ActualExecutionPrelim {
    pub start: YDateTimePrelim,
    pub end: Option<YDateTimePrelim>,
}

/// A to-do that is about to be written, with the to-dos it is split into.
/// Those are held directly: a collection is an array at run time, so that
/// the type has a finite size without any indirection.
#[derive(Debug)]
pub struct TodoPrelim {
    pub text: String,
    pub completed: YBoolPrelim,
    pub created_at: YDateTimePrelim,
    pub estimated_duration: YDurationPrelim,
    pub planned_executions: YrsVecPrelim<PlannedExecutionPrelim>,
    pub actual_executions: YrsVecPrelim<ActualExecutionPrelim>,
    pub child_todos: Vec<TodoPrelim>,
}

/// The state of the application that is about to be written.
#[derive(Debug)]
pub struct StatePrelim {
    pub todos: YrsVecPrelim<TodoPrelim>,
}

impl ToPrelim for PlannedExecutionPrelim {
    type Return = PlannedExecution;

    open spec fn model(&self) -> PrelimView {
        PrelimView::Record(seq![Some(self.start.model()), Some(self.end.model())])
    }

    open spec fn small(&self) -> bool {
        true
    }

    fn to_prelim(&self) -> Prelim {
        let mut fields: Vec<Option<Prelim>> = Vec::new();
        fields.push(Some(self.start.to_prelim()));
        fields.push(Some(self.end.to_prelim()));
        let p = Prelim::Record(fields);
        proof {
            assert(p@->Record_0 =~= self.model()->Record_0);
            lemma_record_conforms(PLANNED_EXECUTION, self.model()->Record_0);
        }
        p
    }
}

impl ToPrelim for ActualExecutionPrelim {
    type Return = ActualExecution;

    open spec fn model(&self) -> PrelimView {
        PrelimView::Record(
            seq![
                Some(self.start.model()),
                match self.end {
                    Some(end) => Some(end.model()),
                    None => None,
                },
            ],
        )
    }

    open spec fn small(&self) -> bool {
        true
    }

    fn to_prelim(&self) -> Prelim {
        let mut fields: Vec<Option<Prelim>> = Vec::new();
        fields.push(Some(self.start.to_prelim()));
        fields.push(
            match &self.end {
                Some(end) => Some(end.to_prelim()),
                None => None,
            },
        );
        let p = Prelim::Record(fields);
        proof {
            assert(p@->Record_0 =~= self.model()->Record_0);
            lemma_record_conforms(ACTUAL_EXECUTION, self.model()->Record_0);
        }
        p
    }
}

impl TodoPrelim {
    /// The to-do and the to-dos below it as a dynamic value.
    pub open spec fn tree(&self) -> PrelimView
        decreases self,
    {
        PrelimView::Record(
            seq![
                Some(PrelimView::Text(self.text@)),
                Some(self.completed.model()),
                Some(self.created_at.model()),
                Some(self.estimated_duration.model()),
                Some(self.planned_executions.model()),
                Some(self.actual_executions.model()),
                Some(
                    PrelimView::List(
                        Seq::new(
                            self.child_todos@.len(),
                            |i: int|
                                if 0 <= i < self.child_todos@.len() {
                                    self.child_todos@[i].tree()
                                } else {
                                    PrelimView::Bool(false)
                                },
                        ),
                    ),
                ),
            ],
        )
    }

    /// No collection in the to-do or below it is longer than an array node
    /// can be.
    pub open spec fn fits_tree(&self) -> bool
        decreases self,
    {
        &&& self.planned_executions.small()
        &&& self.actual_executions.small()
        &&& self.child_todos@.len() <= u32::MAX
        &&& forall|i: int|
            0 <= i < self.child_todos@.len() ==> (#[trigger] self.child_todos@[i]).fits_tree()
    }

    /// Builds [`TodoPrelim::tree`].
    pub fn build(&self) -> (p: Prelim)
        ensures
            p@ == self.tree(),
            self.fits_tree() ==> conforms(records(), FieldType::Record(TODO), self.tree()),
        decreases self,
    {
        let mut children: Vec<Prelim> = Vec::new();
        let mut i: usize = 0;
        while i < self.child_todos.len()
            invariant
                i <= self.child_todos.len(),
                children@.len() == i,
                forall|j: int|
                    0 <= j < i ==> (#[trigger] children@[j])@ == self.child_todos@[j].tree(),
                forall|j: int|
                    0 <= j < i && self.child_todos@[j].fits_tree() ==> conforms(
                        records(),
                        FieldType::Record(TODO),
                        (#[trigger] children@[j])@,
                    ),
            decreases self.child_todos.len() - i,
        {
            children.push(self.child_todos[i].build());
            i = i + 1;
        }
        let mut fields: Vec<Option<Prelim>> = Vec::new();
        fields.push(Some(self.text.to_prelim()));
        fields.push(Some(self.completed.to_prelim()));
        fields.push(Some(self.created_at.to_prelim()));
        fields.push(Some(self.estimated_duration.to_prelim()));
        fields.push(Some(self.planned_executions.to_prelim()));
        fields.push(Some(self.actual_executions.to_prelim()));
        let list = Prelim::List(children);
        proof {
            assert(list@->List_0 =~= self.tree()->Record_0[6]->Some_0->List_0);
        }
        fields.push(Some(list));
        let p = Prelim::Record(fields);
        proof {
            assert(p@->Record_0 =~= self.tree()->Record_0);
            if self.fits_tree() {
                let fs = self.tree()->Record_0;
                let want = records()[TODO as int].fields;
                assert forall|k: int| 0 <= k < fs.len() implies match #[trigger] fs[k] {
                    Some(fp) => conforms(records(), want[k].ty, fp),
                    None => !want[k].required,
                } by {
                    if k == 6 {
                    }
                }
            }
        }
        p
    }
}

impl ToPrelim for TodoPrelim {
    type Return = Todo;

    open spec fn model(&self) -> PrelimView {
        self.tree()
    }

    open spec fn small(&self) -> bool {
        self.fits_tree()
    }

    fn to_prelim(&self) -> Prelim {
        self.build()
    }
}

impl ToPrelim for StatePrelim {
    type Return = State;

    open spec fn model(&self) -> PrelimView {
        PrelimView::Record(seq![Some(self.todos.model())])
    }

    open spec fn small(&self) -> bool {
        self.todos.small()
    }

    fn to_prelim(&self) -> Prelim {
        let mut fields: Vec<Option<Prelim>> = Vec::new();
        fields.push(Some(self.todos.to_prelim()));
        let p = Prelim::Record(fields);
        proof {
            assert(p@->Record_0 =~= self.model()->Record_0);
        }
        p
    }
}

/// Round trip of a planned execution: where a map node stands for one, its
/// start and its end read as the timestamps that were written.
pub proof fn lemma_planned_execution_round_trip(
    d: DocView,
    node: yrs::MapRef,
    p: PlannedExecutionPrelim,
)
    requires
        d.well_formed(),
        conforms(records(), FieldType::Record(PLANNED_EXECUTION), p.model()),
        holds(d, records(), FieldType::Record(PLANNED_EXECUTION), Cell::YMap(node), p.model()),
    ensures
        field_read(d, records(), field_of(PLANNED_EXECUTION, 0), node) == Some(
            Ok::<Cell, ErrorView>(Cell::BigInt(p.start.spec_millis())),
        ),
        field_read(d, records(), field_of(PLANNED_EXECUTION, 1), node) == Some(
            Ok::<Cell, ErrorView>(Cell::BigInt(p.end.spec_millis())),
        ),
{
    let fs = p.model()->Record_0;
    lemma_record_round_trip(d, records(), PLANNED_EXECUTION, node, fs, 0);
    lemma_record_round_trip(d, records(), PLANNED_EXECUTION, node, fs, 1);
}

/// Round trip of an actual execution: where a map node stands for one, its
/// start reads as the timestamp that was written, and its end as the one
/// that was written or as absent where none was.
pub proof fn lemma_actual_execution_round_trip(
    d: DocView,
    node: yrs::MapRef,
    p: ActualExecutionPrelim,
)
    requires
        d.well_formed(),
        conforms(records(), FieldType::Record(ACTUAL_EXECUTION), p.model()),
        holds(d, records(), FieldType::Record(ACTUAL_EXECUTION), Cell::YMap(node), p.model()),
    ensures
        field_read(d, records(), field_of(ACTUAL_EXECUTION, 0), node) == Some(
            Ok::<Cell, ErrorView>(Cell::BigInt(p.start.spec_millis())),
        ),
        field_read(d, records(), field_of(ACTUAL_EXECUTION, 1), node) == match p.end {
            Some(end) => Some(Ok::<Cell, ErrorView>(Cell::BigInt(end.spec_millis()))),
            None => None,
        },
{
    let fs = p.model()->Record_0;
    lemma_record_round_trip(d, records(), ACTUAL_EXECUTION, node, fs, 0);
    lemma_record_round_trip(d, records(), ACTUAL_EXECUTION, node, fs, 1);
}

/// What reading a collection field gives back for the list `xs` that was
/// written: an array node of the same length whose elements stand for the
/// elements of `xs`, in order.
pub open spec fn reads_list(
    d: DocView,
    read: Option<Result<Cell, ErrorView>>,
    inner: FieldType,
    xs: Seq<PrelimView>,
) -> bool {
    &&& read matches Some(Ok(Cell::YArray(array)))
    &&& d.arrays[array].len() == xs.len()
    &&& forall|i: int|
        0 <= i < xs.len() ==> holds(d, records(), inner, d.arrays[array][i], #[trigger] xs[i])
}

/// Round trip of a to-do: where a map node stands for one, each field reads
/// as what was written. The text is a text node with the characters that
/// were written, and each collection has the length that was written and
/// elements that stand for the written ones, in order: so the to-dos below
/// it round-trip in turn, at any depth.
pub proof fn lemma_todo_round_trip(d: DocView, node: yrs::MapRef, p: TodoPrelim)
    requires
        d.well_formed(),
        conforms(records(), FieldType::Record(TODO), p.tree()),
        holds(d, records(), FieldType::Record(TODO), Cell::YMap(node), p.tree()),
    ensures
        field_read(d, records(), field_of(TODO, 0), node) matches Some(
            Ok(Cell::YText(text)),
        ) && d.texts[text] == p.text@,
        field_read(d, records(), field_of(TODO, 1), node) == Some(
            Ok::<Cell, ErrorView>(Cell::Bool(p.completed.0)),
        ),
        field_read(d, records(), field_of(TODO, 2), node) == Some(
            Ok::<Cell, ErrorView>(Cell::BigInt(p.created_at.spec_millis())),
        ),
        field_read(d, records(), field_of(TODO, 3), node) == Some(
            Ok::<Cell, ErrorView>(Cell::BigInt(p.estimated_duration.spec_millis())),
        ),
        reads_list(
            d,
            field_read(d, records(), field_of(TODO, 4), node),
            FieldType::Record(PLANNED_EXECUTION),
            p.planned_executions.model()->List_0,
        ),
        reads_list(
            d,
            field_read(d, records(), field_of(TODO, 5), node),
            FieldType::Record(ACTUAL_EXECUTION),
            p.actual_executions.model()->List_0,
        ),
        reads_list(
            d,
            field_read(d, records(), field_of(TODO, 6), node),
            FieldType::Record(TODO),
            p.tree()->Record_0[6]->Some_0->List_0,
        ),
{
    let fs = p.tree()->Record_0;
    lemma_record_round_trip(d, records(), TODO, node, fs, 0);
    lemma_record_round_trip(d, records(), TODO, node, fs, 1);
    lemma_record_round_trip(d, records(), TODO, node, fs, 2);
    lemma_record_round_trip(d, records(), TODO, node, fs, 3);
    lemma_record_round_trip(d, records(), TODO, node, fs, 4);
    lemma_record_round_trip(d, records(), TODO, node, fs, 5);
    lemma_record_round_trip(d, records(), TODO, node, fs, 6);
}

/// Round trip of the state: where a map node stands for one, its to-dos
/// read as a collection of the length that was written whose elements stand
/// for the written to-dos, in order.
pub proof fn lemma_state_round_trip(d: DocView, node: yrs::MapRef, p: StatePrelim)
    requires
        d.well_formed(),
        conforms(records(), FieldType::Record(STATE), p.model()),
        holds(d, records(), FieldType::Record(STATE), Cell::YMap(node), p.model()),
    ensures
        reads_list(
            d,
            field_read(d, records(), field_of(STATE, 0), node),
            FieldType::Record(TODO),
            p.todos.model()->List_0,
        ),
{
    let fs = p.model()->Record_0;
    lemma_record_round_trip(d, records(), STATE, node, fs, 0);
}

} // verus!
