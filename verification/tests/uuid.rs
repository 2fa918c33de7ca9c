use yrs::{Doc, Transact};
use yrs_wrappers::doc::Value;
use yrs_wrappers::materialize::{insert, insert_prelim, InsertError, Slot};
use yrs_wrappers::prelim::Prelim;
use yrs_wrappers::schema::{FieldType, Schema};
use yrs_wrappers::try_from_yrs_value::TryFromYrsValue;
use yrs_wrappers::uuid::{from_text, to_text};
use yrs_wrappers::yrs_basic_types::{YText, YUuid, YUuidPrelim};
use yrs_wrappers::read_txn::ReadTxn;
use yrs_wrappers::yrs_struct::validate;
use yrs_wrappers::yrs_wrapper_error::YrsWrapperError;

const SAMPLE: [u8; 16] = [
    0x12, 0x3e, 0x45, 0x67, 0xe8, 0x9b, 0x12, 0xd3, 0xa4, 0x56, 0x42, 0x66, 0x14, 0x17, 0x40, 0x00,
];
const SAMPLE_TEXT: &str = "123e4567-e89b-12d3-a456-426614174000";

#[test]
fn the_canonical_text_of_a_uuid() {
    assert_eq!(to_text(&SAMPLE), SAMPLE_TEXT);
    assert_eq!(to_text(&[0u8; 16]), "00000000-0000-0000-0000-000000000000");
    assert_eq!(to_text(&[0xffu8; 16]), "ffffffff-ffff-ffff-ffff-ffffffffffff");
    let counting: [u8; 16] = [0, 1, 2, 3, 4, 5, 6, 7, 8, 9, 10, 11, 12, 13, 14, 15];
    assert_eq!(to_text(&counting), "00010203-0405-0607-0809-0a0b0c0d0e0f");
}

#[test]
fn reading_the_canonical_text_gives_the_bytes_back() {
    assert_eq!(from_text(SAMPLE_TEXT), Some(SAMPLE));
    assert_eq!(from_text("00000000-0000-0000-0000-000000000000"), Some([0u8; 16]));
    let mut bytes = [0u8; 16];
    for seed in 0..=255u8 {
        for (i, b) in bytes.iter_mut().enumerate() {
            *b = seed.wrapping_mul(31).wrapping_add((i as u8).wrapping_mul(17));
        }
        assert_eq!(from_text(&to_text(&bytes)), Some(bytes));
    }
}

#[test]
fn a_text_of_another_form_is_no_uuid() {
    for text in [
        "",
        "123e4567-e89b-12d3-a456-42661417400",
        "123e4567-e89b-12d3-a456-4266141740000",
        "123E4567-E89B-12D3-A456-426614174000",
        "123e4567e89b-12d3-a456-4266141740000",
        "123e4567-e89b-12d3-a456_426614174000",
        "123e4567-e89b-12d3-a456-42661417400g",
        "123e4567--e89b12d3-a456-426614174000",
        "{23e4567-e89b-12d3-a456-42661417400}",
        "123e4567-e89b-12d3-a456-42661417400é",
    ] {
        assert_eq!(from_text(text), None);
    }
}

#[test]
fn a_uuid_is_stored_as_its_canonical_text() {
    let schema = Schema::empty();
    let doc = Doc::new();
    let root = doc.get_or_insert_map("root");
    let mut txn = doc.transact_mut();
    let written =
        insert(&schema, &FieldType::Uuid, &Prelim::Uuid(SAMPLE), &Slot::Key(&root, "id"), &mut txn)
            .unwrap();
    assert!(validate(&schema, &FieldType::Uuid, &written, &txn).is_ok());
    assert_eq!(
        YText::from_validated(txn.entry(&root, "id").unwrap()).get_string(&txn),
        SAMPLE_TEXT,
    );
    assert_eq!(
        insert(&schema, &FieldType::Text, &Prelim::Uuid(SAMPLE), &Slot::Key(&root, "t"), &mut txn)
            .err(),
        Some(InsertError::NotConforming)
    );
}

#[test]
fn a_text_that_is_no_uuid_is_out_of_range() {
    let schema = Schema::empty();
    let doc = Doc::new();
    let root = doc.get_or_insert_map("root");
    let mut txn = doc.transact_mut();
    yrs::Map::insert(&root, &mut txn, "loud", yrs::TextPrelim::new(SAMPLE_TEXT.to_uppercase()));
    yrs::Map::insert(&root, &mut txn, "empty", yrs::TextPrelim::new(""));
    yrs::Map::insert(&root, &mut txn, "string", SAMPLE_TEXT);
    for key in ["loud", "empty"] {
        assert!(matches!(
            validate(&schema, &FieldType::Uuid, &txn.entry(&root, key).unwrap(), &txn),
            Err(YrsWrapperError::ValueOutOfRange)
        ));
    }
    assert!(matches!(
        validate(&schema, &FieldType::Uuid, &txn.entry(&root, "string").unwrap(), &txn),
        Err(YrsWrapperError::ExpectedText)
    ));
    assert!(matches!(
        validate(&schema, &FieldType::Uuid, &Value::BigInt(1), &txn),
        Err(YrsWrapperError::ExpectedText)
    ));
}

#[test]
fn a_typed_uuid_round_trips() {
    let doc = Doc::new();
    let root = doc.get_or_insert_map("root");
    let mut txn = doc.transact_mut();
    let id: YUuid = insert_prelim(YUuidPrelim(SAMPLE), &Slot::Key(&root, "id"), &mut txn).unwrap();
    assert_eq!(id.bytes(&txn), Some(SAMPLE));
    let node = match txn.entry(&root, "id") {
        Some(Value::YText(t)) => t,
        _ => panic!("a UUID is a text node"),
    };
    yrs::Text::push(&node, &mut txn, "!");
    assert_eq!(id.bytes(&txn), None);
    assert!(YUuid::try_from_yrs_value(Value::YText(node), &txn).is_err());
}
