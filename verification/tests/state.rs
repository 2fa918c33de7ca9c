use yrs::{Doc, Transact};
use yrs_wrappers::materialize::{insert_prelim, InsertError, Slot};
use yrs_wrappers::state::{
    ActualExecution, ActualExecutionPrelim, PlannedExecution, PlannedExecutionPrelim, State,
    StatePrelim, Todo, TodoPrelim,
};
use yrs_wrappers::try_from_yrs_value::TryFromYrsValue;
use yrs_wrappers::yrs_basic_types::{YBoolPrelim, YDateTimePrelim, YDurationPrelim};
use yrs_wrappers::read_txn::ReadTxn;
use yrs_wrappers::yrs_vec::YrsVecPrelim;
use yrs_wrappers::yrs_wrapper_error::{Kind, YrsWrapperError};

const T0: i64 = 1_682_928_000_000;
const MINUTE: i64 = 60_000;

fn assert_end_of_element_one_is_no_number(e: &YrsWrapperError) {
    match e {
        YrsWrapperError::ElementDecode { index, cause } => {
            assert_eq!(*index, 1);
            match &**cause {
                YrsWrapperError::FieldDecode { field, cause } => {
                    assert_eq!(field, "end");
                    assert!(matches!(
                        **cause,
                        YrsWrapperError::WrongKind { expected: Kind::BigInt }
                    ));
                }
                _ => panic!("expected a failed field in the element"),
            }
        }
        _ => panic!("expected a failed element"),
    }
}

fn at(millis: i64) -> YDateTimePrelim {
    YDateTimePrelim::from_timestamp_millis(millis).unwrap()
}

fn lasting(millis: i64) -> YDurationPrelim {
    YDurationPrelim::milliseconds(millis).unwrap()
}

fn todo(text: &str, children: Vec<TodoPrelim>) -> TodoPrelim {
    TodoPrelim {
        text: text.to_owned(),
        completed: YBoolPrelim::new(false),
        created_at: at(T0),
        estimated_duration: lasting(60 * MINUTE),
        planned_executions: YrsVecPrelim::new(vec![]),
        actual_executions: YrsVecPrelim::new(vec![]),
        child_todos: children,
    }
}

#[test]
fn mod_test_new_state() {
    let start = chrono::Utc::now().timestamp_millis();
    let state_prelim = StatePrelim {
        todos: YrsVecPrelim::new(vec![TodoPrelim {
            text: "yo".into(),
            completed: YBoolPrelim::new(false),
            created_at: at(chrono::Utc::now().timestamp_millis()),
            estimated_duration: lasting(chrono::Duration::seconds(60).num_milliseconds()),
            planned_executions: YrsVecPrelim::new(vec![PlannedExecutionPrelim {
                start: at(start),
                end: at(chrono::Utc::now().timestamp_millis()),
            }]),
            actual_executions: YrsVecPrelim::new(vec![ActualExecutionPrelim {
                start: at(start),
                end: None,
            }]),
            child_todos: vec![],
        }]),
    };

    let doc = Doc::new();
    let map = doc.get_or_insert_map("state");
    let mut txn = doc.try_transact_mut().unwrap();

    let state = insert_prelim(state_prelim, &Slot::Key(&map, "state"), &mut txn).unwrap();

    drop(txn);
    let txn = doc.try_transact().unwrap();

    let first_todo = state.todos(&txn).unwrap().get(&txn, 0).unwrap().unwrap();

    let todo_first_text = first_todo.text(&txn).unwrap();
    assert_eq!(todo_first_text.get_string(&txn), "yo");

    let first_todo_completed = first_todo.completed(&txn).unwrap();
    assert_eq!(first_todo_completed.get(), false);

    assert_eq!(
        first_todo.estimated_duration(&txn).unwrap().num_milliseconds(),
        chrono::Duration::seconds(60).num_milliseconds()
    );

    let read_start = first_todo
        .planned_executions(&txn)
        .unwrap()
        .get(&txn, 0)
        .unwrap()
        .unwrap()
        .start(&txn)
        .unwrap();
    assert_eq!(
        chrono::DateTime::from_timestamp_millis(read_start.timestamp_millis())
            .unwrap()
            .format("%Y-%m-%dT%H:%M:%SZ")
            .to_string(),
        chrono::DateTime::from_timestamp_millis(start)
            .unwrap()
            .format("%Y-%m-%dT%H:%M:%SZ")
            .to_string()
    );
}

#[test]
fn test_new_state() {
    let doc = Doc::new();
    let map = doc.get_or_insert_map("state");
    let mut txn = doc.transact_mut();
    let now = chrono::Utc::now().timestamp_millis();
    let state = insert_prelim(StatePrelim {
            todos: YrsVecPrelim::new(vec![TodoPrelim {
                text: "yo".to_owned(),
                completed: YBoolPrelim::new(false),
                created_at: at(now),
                estimated_duration: lasting(chrono::Duration::seconds(60).num_milliseconds()),
                planned_executions: YrsVecPrelim::new(vec![PlannedExecutionPrelim {
                    start: at(now),
                    end: at(now),
                }]),
                actual_executions: YrsVecPrelim::new(vec![ActualExecutionPrelim {
                    start: at(now),
                    end: None,
                }]),
                child_todos: vec![],
            }]),
        },
        &Slot::Key(&map, "state"),
        &mut txn,
    );
    assert!(state.is_ok());
}

#[test]
fn planned_execution_reads_back_start_and_end() {
    let doc = Doc::new();
    let root_map = doc.get_or_insert_map("root");
    let mut txn = doc.transact_mut();
    let prelim = PlannedExecutionPrelim { start: at(T0), end: at(T0 + 45 * MINUTE) };
    let pe = insert_prelim(prelim, &Slot::Key(&root_map, "pe"), &mut txn).unwrap();
    assert_eq!(pe.start(&txn).unwrap().timestamp_millis(), T0);
    assert_eq!(pe.end(&txn).unwrap().timestamp_millis(), T0 + 45 * MINUTE);
}

#[test]
fn actual_execution_end_is_absent_until_written() {
    let doc = Doc::new();
    let root_map = doc.get_or_insert_map("root");
    let running = {
        let mut txn = doc.transact_mut();
        let prelim = ActualExecutionPrelim { start: at(T0), end: None };
        let ae = insert_prelim(prelim, &Slot::Key(&root_map, "first"), &mut txn).unwrap();
        assert!(ae.end(&txn).is_none());
        assert_eq!(ae.start(&txn).unwrap().timestamp_millis(), T0);
        ae
    };
    let t1 = T0 + 24 * 60 * MINUTE;
    let mut txn = doc.transact_mut();
    let prelim = ActualExecutionPrelim { start: at(t1), end: Some(at(t1 + 10 * MINUTE)) };
    let ae = insert_prelim(prelim, &Slot::Key(&root_map, "second"), &mut txn).unwrap();
    assert_eq!(ae.end(&txn).unwrap().unwrap().timestamp_millis(), t1 + 10 * MINUTE);
    assert!(running.end(&txn).is_none());
}

#[test]
fn todo_collections_report_their_lengths() {
    let doc = Doc::new();
    let root_map = doc.get_or_insert_map("root");
    let mut txn = doc.transact_mut();
    let mut prelim = todo("write", vec![]);
    prelim.planned_executions = YrsVecPrelim::new(vec![
        PlannedExecutionPrelim { start: at(T0), end: at(T0 + MINUTE) },
        PlannedExecutionPrelim { start: at(T0 + 2 * MINUTE), end: at(T0 + 3 * MINUTE) },
    ]);
    let t = insert_prelim(prelim, &Slot::Key(&root_map, "todo"), &mut txn).unwrap();
    let planned = t.planned_executions(&txn).unwrap();
    assert_eq!(planned.len(&txn), 2);
    assert!(!planned.is_empty(&txn));
    let actual = t.actual_executions(&txn).unwrap();
    assert_eq!(actual.len(&txn), 0);
    assert!(actual.is_empty(&txn));
    assert_eq!(
        planned.get(&txn, 1).unwrap().unwrap().start(&txn).unwrap().timestamp_millis(),
        T0 + 2 * MINUTE
    );
}

#[test]
fn nested_todo_reads_back_its_child() {
    let doc = Doc::new();
    let root_map = doc.get_or_insert_map("root");
    let mut txn = doc.transact_mut();
    let prelim = todo("parent", vec![todo("child", vec![])]);
    let t = insert_prelim(prelim, &Slot::Key(&root_map, "todo"), &mut txn).unwrap();
    let children = t.child_todos(&txn).unwrap();
    assert_eq!(children.get().len(&txn), 1);
    let child = children.get().get(&txn, 0).unwrap().unwrap();
    assert_eq!(child.text(&txn).unwrap().get_string(&txn), "child");
}

#[test]
fn nesting_three_levels_deep_round_trips() {
    let doc = Doc::new();
    let root_map = doc.get_or_insert_map("root");
    let mut txn = doc.transact_mut();
    let prelim = StatePrelim {
        todos: YrsVecPrelim::new(vec![todo(
            "a",
            vec![todo(
                "a.1",
                vec![todo("a.1.x", vec![]), todo("a.1.y", vec![])],
            ), todo("a.2", vec![])],
        )]),
    };
    let state = insert_prelim(prelim, &Slot::Key(&root_map, "state"), &mut txn).unwrap();
    let a = state.todos(&txn).unwrap().get(&txn, 0).unwrap().unwrap();
    assert_eq!(a.text(&txn).unwrap().get_string(&txn), "a");
    let a_children = a.child_todos(&txn).unwrap().into_inner();
    assert_eq!(a_children.len(&txn), 2);
    let a1 = a_children.get(&txn, 0).unwrap().unwrap();
    assert_eq!(a1.text(&txn).unwrap().get_string(&txn), "a.1");
    let a1_children = a1.child_todos(&txn).unwrap().into_inner();
    let names: Vec<String> = a1_children
        .iter(&txn)
        .unwrap()
        .iter()
        .map(|t| t.text(&txn).unwrap().get_string(&txn))
        .collect();
    assert_eq!(names, vec!["a.1.x".to_owned(), "a.1.y".to_owned()]);
    let a2 = a_children.get(&txn, 1).unwrap().unwrap();
    assert_eq!(a2.text(&txn).unwrap().get_string(&txn), "a.2");
    assert!(a2.child_todos(&txn).unwrap().get().is_empty(&txn));
    assert!(a_children.get(&txn, 2).unwrap().is_none());
}

#[test]
fn every_field_of_a_todo_round_trips() {
    let doc = Doc::new();
    let root_map = doc.get_or_insert_map("root");
    let mut txn = doc.transact_mut();
    let prelim = TodoPrelim {
        text: "".to_owned(),
        completed: YBoolPrelim::new(true),
        created_at: at(-1),
        estimated_duration: lasting(-90 * MINUTE),
        planned_executions: YrsVecPrelim::new(vec![PlannedExecutionPrelim {
            start: at(0),
            end: at(1),
        }]),
        actual_executions: YrsVecPrelim::new(vec![
            ActualExecutionPrelim { start: at(5), end: Some(at(6)) },
            ActualExecutionPrelim { start: at(7), end: None },
        ]),
        child_todos: vec![],
    };
    let t = insert_prelim(prelim, &Slot::Key(&root_map, "todo"), &mut txn).unwrap();
    assert_eq!(t.text(&txn).unwrap().get_string(&txn), "");
    assert!(t.completed(&txn).unwrap().get());
    assert_eq!(t.created_at(&txn).unwrap().timestamp_millis(), -1);
    assert_eq!(t.estimated_duration(&txn).unwrap().num_milliseconds(), -90 * MINUTE);
    let planned = t.planned_executions(&txn).unwrap().iter(&txn).unwrap();
    assert_eq!(planned.len(), 1);
    assert_eq!(planned[0].start(&txn).unwrap().timestamp_millis(), 0);
    assert_eq!(planned[0].end(&txn).unwrap().timestamp_millis(), 1);
    let actual = t.actual_executions(&txn).unwrap().iter(&txn).unwrap();
    assert_eq!(actual.len(), 2);
    assert_eq!(actual[0].end(&txn).unwrap().unwrap().timestamp_millis(), 6);
    assert!(actual[1].end(&txn).is_none());
    assert_eq!(actual[1].start(&txn).unwrap().timestamp_millis(), 7);
}

#[test]
fn parse_accepts_what_was_written_and_names_what_is_missing() {
    let doc = Doc::new();
    let root_map = doc.get_or_insert_map("root");
    let mut txn = doc.transact_mut();
    insert_prelim(todo("t", vec![]), &Slot::Key(&root_map, "todo"), &mut txn).unwrap();
    let written = match txn.entry(&root_map, "todo") {
        Some(yrs_wrappers::doc::Value::YMap(m)) => m,
        _ => panic!("a map node was written"),
    };
    assert!(Todo::parse(written.clone(), &txn).is_ok());
    // The same node is no state: it has no `todos`.
    match State::parse(written.clone(), &txn) {
        Err(YrsWrapperError::MissingAttribute { attr }) => assert_eq!(attr, "todos"),
        _ => panic!("expected a missing attribute"),
    }
    // Nor a planned execution: `start` comes first.
    match PlannedExecution::parse(written.clone(), &txn) {
        Err(YrsWrapperError::MissingAttribute { attr }) => assert_eq!(attr, "start"),
        _ => panic!("expected a missing attribute"),
    }
    match ActualExecution::parse(written, &txn) {
        Err(YrsWrapperError::MissingAttribute { attr }) => assert_eq!(attr, "start"),
        _ => panic!("expected a missing attribute"),
    }
}

#[test]
fn a_missing_required_field_is_an_error_and_no_default() {
    let doc = Doc::new();
    let root_map = doc.get_or_insert_map("root");
    let mut txn = doc.transact_mut();
    let node = yrs::Map::insert(&root_map, &mut txn, "pe", yrs::MapPrelim::<lib0::any::Any>::new());
    yrs::Map::insert(&node, &mut txn, "start", lib0::any::Any::BigInt(T0));
    let pe = PlannedExecution::from_validated(yrs_wrappers::doc::Value::YMap(node.clone()));
    assert_eq!(pe.start(&txn).unwrap().timestamp_millis(), T0);
    match pe.end(&txn) {
        Err(YrsWrapperError::MissingAttribute { attr }) => assert_eq!(attr, "end"),
        _ => panic!("expected a missing attribute"),
    }
    match PlannedExecution::parse(node, &txn) {
        Err(YrsWrapperError::MissingAttribute { attr }) => assert_eq!(attr, "end"),
        _ => panic!("expected a missing attribute"),
    }
}

#[test]
fn a_malformed_optional_field_is_an_error_and_no_absence() {
    let doc = Doc::new();
    let root_map = doc.get_or_insert_map("root");
    let mut txn = doc.transact_mut();
    let node = yrs::Map::insert(&root_map, &mut txn, "ae", yrs::MapPrelim::<lib0::any::Any>::new());
    yrs::Map::insert(&node, &mut txn, "start", lib0::any::Any::BigInt(T0));
    yrs::Map::insert(&node, &mut txn, "end", lib0::any::Any::Bool(true));
    let ae = ActualExecution::from_validated(yrs_wrappers::doc::Value::YMap(node.clone()));
    match ae.end(&txn) {
        Some(Err(YrsWrapperError::FieldDecode { field, cause })) => {
            assert_eq!(field, "end");
            assert!(matches!(*cause, YrsWrapperError::WrongKind { expected: Kind::BigInt }));
        }
        _ => panic!("expected a wrong kind in the field"),
    }
    match ActualExecution::parse(node, &txn) {
        Err(e) => {
            assert_eq!(e.field(), Some("end"));
            assert!(matches!(
                e.root_cause(),
                YrsWrapperError::WrongKind { expected: Kind::BigInt }
            ));
        }
        Ok(_) => panic!("the end is no timestamp"),
    }
}

#[test]
fn one_malformed_element_fails_the_whole_collection() {
    let doc = Doc::new();
    let root_map = doc.get_or_insert_map("root");
    let mut txn = doc.transact_mut();
    let mut prelim = todo("t", vec![]);
    prelim.planned_executions = YrsVecPrelim::new(vec![
        PlannedExecutionPrelim { start: at(1), end: at(2) },
        PlannedExecutionPrelim { start: at(3), end: at(4) },
        PlannedExecutionPrelim { start: at(5), end: at(6) },
    ]);
    let t = insert_prelim(prelim, &Slot::Key(&root_map, "todo"), &mut txn).unwrap();
    let planned = t.planned_executions(&txn).unwrap();
    assert_eq!(planned.len(&txn), 3);
    for i in 0..3 {
        assert!(planned.get(&txn, i).unwrap().is_some());
    }
    assert!(planned.get(&txn, 3).unwrap().is_none());
    assert!(planned.get(&txn, u32::MAX).unwrap().is_none());

    // Break the element in the middle behind the library's back.
    let raw = planned.as_array_ref().clone();
    yrs::Array::remove(&raw, &mut txn, 1);
    let broken = yrs::Array::insert(&raw, &mut txn, 1, yrs::MapPrelim::<lib0::any::Any>::new());
    yrs::Map::insert(&broken, &mut txn, "start", lib0::any::Any::BigInt(3));
    yrs::Map::insert(&broken, &mut txn, "end", "four");

    match t.planned_executions(&txn) {
        Err(YrsWrapperError::FieldDecode { field, cause }) => {
            assert_eq!(field, "planned_executions");
            assert_end_of_element_one_is_no_number(&cause);
        }
        _ => panic!("expected a failed field"),
    }
    match planned.iter(&txn) {
        Err(e) => assert_end_of_element_one_is_no_number(&e),
        _ => panic!("expected a failed element"),
    }
    assert!(planned.get(&txn, 0).unwrap().is_some());
    assert!(planned.get(&txn, 1).is_err());
    assert!(planned.get(&txn, 2).unwrap().is_some());
    // The to-do as a whole no longer decodes either, and says where.
    match Todo::parse(t.as_map_ref().clone(), &txn) {
        Err(YrsWrapperError::FieldDecode { field, cause }) => {
            assert_eq!(field, "planned_executions");
            assert_end_of_element_one_is_no_number(&cause);
        }
        _ => panic!("expected a failed field"),
    }
}

#[test]
fn an_element_without_a_required_field_is_named_with_its_field_and_index() {
    let doc = Doc::new();
    let root_map = doc.get_or_insert_map("root");
    let mut txn = doc.transact_mut();
    let mut prelim = todo("t", vec![]);
    prelim.planned_executions = YrsVecPrelim::new(vec![
        PlannedExecutionPrelim { start: at(1), end: at(2) },
        PlannedExecutionPrelim { start: at(5), end: at(6) },
    ]);
    let t = insert_prelim(prelim, &Slot::Key(&root_map, "todo"), &mut txn).unwrap();
    let raw = t.planned_executions(&txn).unwrap().as_array_ref().clone();
    let bare = yrs::Array::insert(&raw, &mut txn, 1, yrs::MapPrelim::<lib0::any::Any>::new());
    yrs::Map::insert(&bare, &mut txn, "start", lib0::any::Any::BigInt(0));

    let e = Todo::parse(t.as_map_ref().clone(), &txn).unwrap_err();
    assert_eq!(e.field(), Some("planned_executions"));
    match &e {
        YrsWrapperError::FieldDecode { field, cause } => {
            assert_eq!(field, "planned_executions");
            match &**cause {
                YrsWrapperError::ElementDecode { index, cause } => {
                    assert_eq!(*index, 1);
                    match &**cause {
                        YrsWrapperError::MissingAttribute { attr } => assert_eq!(attr, "end"),
                        _ => panic!("expected a missing field"),
                    }
                }
                _ => panic!("expected a failed element"),
            }
        }
        _ => panic!("expected a failed field"),
    }
    match e.root_cause() {
        YrsWrapperError::MissingAttribute { attr } => assert_eq!(attr, "end"),
        _ => panic!("expected a missing field"),
    }
}

#[test]
fn a_field_of_the_wrong_kind_is_named_with_the_kind_that_was_expected() {
    let doc = Doc::new();
    let root_map = doc.get_or_insert_map("root");
    let mut txn = doc.transact_mut();
    let node = yrs::Map::insert(&root_map, &mut txn, "pe", yrs::MapPrelim::<lib0::any::Any>::new());
    yrs::Map::insert(&node, &mut txn, "start", lib0::any::Any::Bool(true));
    yrs::Map::insert(&node, &mut txn, "end", lib0::any::Any::BigInt(i64::MAX));
    let pe = PlannedExecution::from_validated(yrs_wrappers::doc::Value::YMap(node.clone()));
    match pe.start(&txn) {
        Err(YrsWrapperError::FieldDecode { field, cause }) => {
            assert_eq!(field, "start");
            assert!(matches!(*cause, YrsWrapperError::WrongKind { expected: Kind::BigInt }));
        }
        _ => panic!("expected a wrong kind in the field"),
    }
    match pe.end(&txn) {
        Err(YrsWrapperError::FieldDecode { field, cause }) => {
            assert_eq!(field, "end");
            assert!(matches!(*cause, YrsWrapperError::ValueOutOfRange));
        }
        _ => panic!("expected a number out of range in the field"),
    }
    // The record fails at its first field that is not in order.
    let e = PlannedExecution::parse(node, &txn).unwrap_err();
    assert_eq!(e.field(), Some("start"));
    assert!(YrsWrapperError::ExpectedMap.field().is_none());
    assert!(YrsWrapperError::WrongKind { expected: Kind::Bool }.field().is_none());
}

#[test]
fn a_collection_grows_by_insert_at_index() {
    let doc = Doc::new();
    let root_map = doc.get_or_insert_map("root");
    let mut txn = doc.transact_mut();
    let state = insert_prelim(StatePrelim { todos: YrsVecPrelim::new(vec![todo("b", vec![])]) },
        &Slot::Key(&root_map, "state"),
        &mut txn,
    )
    .unwrap();
    let todos = state.todos(&txn).unwrap();
    let a = todos.insert(&mut txn, 0, todo("a", vec![])).unwrap();
    assert_eq!(a.text(&txn).unwrap().get_string(&txn), "a");
    todos.insert(&mut txn, 2, todo("c", vec![])).unwrap();
    let names: Vec<String> = todos
        .iter(&txn)
        .unwrap()
        .iter()
        .map(|t| t.text(&txn).unwrap().get_string(&txn))
        .collect();
    assert_eq!(names, vec!["a".to_owned(), "b".to_owned(), "c".to_owned()]);
    assert_eq!(todos.insert(&mut txn, 4, todo("e", vec![])).err(), Some(InsertError::OutOfBounds));
    assert_eq!(todos.len(&txn), 3);
}

#[test]
fn a_value_takes_the_place_of_what_stood_under_its_key() {
    let doc = Doc::new();
    let root_map = doc.get_or_insert_map("root");
    let mut txn = doc.transact_mut();
    let mut prelim = todo("first", vec![todo("below", vec![])]);
    prelim.planned_executions =
        YrsVecPrelim::new(vec![PlannedExecutionPrelim { start: at(T0), end: at(T0 + MINUTE) }]);
    let first = insert_prelim(prelim, &Slot::Key(&root_map, "todo"), &mut txn).unwrap();
    let first_text = first.text(&txn).unwrap();
    let first_planned = first.planned_executions(&txn).unwrap();
    let first_execution = first_planned.get(&txn, 0).unwrap().unwrap();
    let first_children = first.child_todos(&txn).unwrap().into_inner();
    let below = first_children.get(&txn, 0).unwrap().unwrap();
    let kept = insert_prelim(todo("kept", vec![]), &Slot::Key(&root_map, "other"), &mut txn)
        .unwrap();

    let second =
        insert_prelim(todo("second", vec![]), &Slot::Key(&root_map, "todo"), &mut txn).unwrap();

    // The new value stands under the key.
    assert_eq!(second.text(&txn).unwrap().get_string(&txn), "second");
    match txn.entry(&root_map, "todo") {
        Some(yrs_wrappers::doc::Value::YMap(m)) => assert_eq!(&m, second.as_map_ref()),
        _ => panic!("a map node was written"),
    }
    assert_eq!(yrs::Map::len(&root_map, &txn), 2);
    // What stood there has left the document, at every level: the engine
    // shows nothing in it any more.
    assert_eq!(yrs::Map::len(first.as_map_ref(), &txn), 0);
    assert!(yrs::Map::get(first.as_map_ref(), &txn, "text").is_none());
    assert!(yrs::Map::get(first.as_map_ref(), &txn, "child_todos").is_none());
    assert_eq!(yrs::GetString::get_string(first_text.as_text_ref(), &txn), "");
    assert_eq!(yrs::Array::len(first_planned.as_array_ref(), &txn), 0);
    assert_eq!(yrs::Map::len(first_execution.as_map_ref(), &txn), 0);
    assert_eq!(yrs::Array::len(first_children.as_array_ref(), &txn), 0);
    assert_eq!(yrs::Map::len(below.as_map_ref(), &txn), 0);
    // Every other node is as it was.
    assert_eq!(kept.text(&txn).unwrap().get_string(&txn), "kept");
    assert!(Todo::parse(kept.as_map_ref().clone(), &txn).is_ok());
}

#[test]
fn a_primitive_takes_the_place_of_a_primitive() {
    let doc = Doc::new();
    let root_map = doc.get_or_insert_map("root");
    let mut txn = doc.transact_mut();
    let pe = insert_prelim(
        PlannedExecutionPrelim { start: at(T0), end: at(T0 + MINUTE) },
        &Slot::Key(&root_map, "pe"),
        &mut txn,
    )
    .unwrap();
    insert_prelim(at(T0 + 5 * MINUTE), &Slot::Key(pe.as_map_ref(), "end"), &mut txn).unwrap();
    assert_eq!(pe.start(&txn).unwrap().timestamp_millis(), T0);
    assert_eq!(pe.end(&txn).unwrap().timestamp_millis(), T0 + 5 * MINUTE);
    insert_prelim(YBoolPrelim::new(true), &Slot::Key(pe.as_map_ref(), "end"), &mut txn).unwrap();
    match pe.end(&txn) {
        Err(YrsWrapperError::FieldDecode { field, cause }) => {
            assert_eq!(field, "end");
            assert!(matches!(*cause, YrsWrapperError::WrongKind { expected: Kind::BigInt }));
        }
        _ => panic!("expected a wrong kind in the field"),
    }
    insert_prelim("text".to_owned(), &Slot::Key(pe.as_map_ref(), "end"), &mut txn).unwrap();
    insert_prelim(at(7), &Slot::Key(pe.as_map_ref(), "end"), &mut txn).unwrap();
    assert_eq!(pe.end(&txn).unwrap().timestamp_millis(), 7);
    assert_eq!(yrs::Map::len(pe.as_map_ref(), &txn), 2);
}

#[test]
fn the_state_is_found_again_from_the_root() {
    let doc = Doc::new();
    let root_map = doc.get_or_insert_map("app");
    {
        let mut txn = doc.transact_mut();
        insert_prelim(StatePrelim { todos: YrsVecPrelim::new(vec![todo("kept", vec![])]) },
            &Slot::Key(&root_map, "state"),
            &mut txn,
        )
        .unwrap();
    }
    let txn = doc.transact();
    assert!(txn.root("no such root").is_none());
    let found = txn.root("app").unwrap();
    assert_eq!(found, root_map);
    let state = match txn.entry(&found, "state") {
        Some(yrs_wrappers::doc::Value::YMap(m)) => State::parse(m, &txn).unwrap(),
        _ => panic!("the state was written"),
    };
    let first = state.todos(&txn).unwrap().get(&txn, 0).unwrap().unwrap();
    assert_eq!(first.text(&txn).unwrap().get_string(&txn), "kept");
}

#[test]
fn many_readers_share_a_document() {
    let doc = Doc::new();
    let root_map = doc.get_or_insert_map("root");
    let t = {
        let mut txn = doc.transact_mut();
        let mut prelim = todo("shared", vec![todo("child", vec![])]);
        prelim.planned_executions =
            YrsVecPrelim::new(vec![PlannedExecutionPrelim { start: at(T0), end: at(T0 + MINUTE) }]);
        insert_prelim(prelim, &Slot::Key(&root_map, "todo"), &mut txn).unwrap()
    };
    let first = doc.transact();
    let second = doc.transact();
    assert_eq!(t.text(&first).unwrap().get_string(&second), "shared");
    assert!(!t.completed(&second).unwrap().get());
    let planned = t.planned_executions(&first).unwrap();
    assert_eq!(planned.len(&second), 1);
    assert!(!planned.is_empty(&first));
    assert_eq!(
        planned.get(&second, 0).unwrap().unwrap().end(&first).unwrap().timestamp_millis(),
        T0 + MINUTE,
    );
    assert_eq!(planned.iter(&first).unwrap().len(), 1);
    let children = t.child_todos(&second).unwrap().into_inner();
    assert_eq!(
        children.get(&first, 0).unwrap().unwrap().text(&second).unwrap().get_string(&first),
        "child",
    );
    let again = match second.entry(&first.root("root").unwrap(), "todo") {
        Some(yrs_wrappers::doc::Value::YMap(m)) => Todo::parse(m, &second).unwrap(),
        _ => panic!("a map node was written"),
    };
    assert_eq!(again.text(&first).unwrap().get_string(&first), "shared");
    assert!(first.element(planned.as_array_ref(), 0).is_some());
    assert!(first.element(planned.as_array_ref(), 1).is_none());
}

#[test]
fn a_cloned_handle_points_to_the_same_node() {
    let doc = Doc::new();
    let root_map = doc.get_or_insert_map("root");
    let mut txn = doc.transact_mut();
    let state = insert_prelim(
        StatePrelim { todos: YrsVecPrelim::new(vec![todo("one", vec![])]) },
        &Slot::Key(&root_map, "state"),
        &mut txn,
    )
    .unwrap();
    let other = state.clone();
    let todos = state.todos(&txn).unwrap();
    let same = todos.clone();
    todos.insert(&mut txn, 1, todo("two", vec![])).unwrap();
    assert_eq!(same.len(&txn), 2);
    assert_eq!(other.todos(&txn).unwrap().len(&txn), 2);
    let two = same.get(&txn, 1).unwrap().unwrap();
    let text = two.clone().text(&txn).unwrap();
    assert_eq!(text.clone().get_string(&txn), "two");
}

#[test]
fn a_handle_gives_out_the_node_it_points_to() {
    let doc = Doc::new();
    let root_map = doc.get_or_insert_map("root");
    let mut txn = doc.transact_mut();
    let t = insert_prelim(todo("node", vec![]), &Slot::Key(&root_map, "todo"), &mut txn).unwrap();
    match txn.entry(&root_map, "todo") {
        Some(yrs_wrappers::doc::Value::YMap(m)) => assert_eq!(&m, t.as_map_ref()),
        _ => panic!("a map node was written"),
    }
    let text = t.text(&txn).unwrap();
    assert_eq!(yrs::GetString::get_string(text.as_text_ref(), &txn), "node");
    let planned = t.planned_executions(&txn).unwrap();
    assert_eq!(yrs::Array::len(planned.as_array_ref(), &txn), 0);
    yrs::Text::push(text.as_text_ref(), &mut txn, "s");
    assert_eq!(t.text(&txn).unwrap().get_string(&txn), "nodes");
}

#[test]
fn a_root_is_found_by_its_name_alone() {
    let doc = Doc::new();
    let first = doc.get_or_insert_map("first");
    let second = doc.get_or_insert_map("second");
    {
        let txn = doc.transact_mut();
        assert_eq!(txn.root("first"), Some(first.clone()));
        assert_eq!(txn.root("second"), Some(second.clone()));
        assert_eq!(txn.root("third"), None);
        assert_eq!(txn.root(""), None);
    }
    let txn = doc.transact();
    assert_eq!(txn.root("first"), Some(first));
    assert_eq!(txn.root("second"), Some(second));
    assert_eq!(txn.root("First"), None);
}
