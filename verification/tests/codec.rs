use yrs_wrappers::doc::Value;
use yrs_wrappers::yrs_basic_types::{
    YBool, YDateTime, YDateTimePrelim, YDuration, YDurationPrelim,
};
use yrs_wrappers::yrs_wrapper_error::{Kind, YrsWrapperError};

#[test]
fn timestamps_exist_where_chrono_has_a_date_for_them() {
    for millis in [0, 1, -1, 1_682_928_000_000, -62_135_596_800_000] {
        let p = YDateTimePrelim::from_timestamp_millis(millis).unwrap();
        assert_eq!(p.timestamp_millis(), millis);
        assert!(chrono::DateTime::from_timestamp_millis(millis).is_some());
    }
    for millis in [i64::MAX, i64::MIN, 9_000_000_000_000_000, -9_000_000_000_000_000] {
        assert!(YDateTimePrelim::from_timestamp_millis(millis).is_none());
        assert!(chrono::DateTime::from_timestamp_millis(millis).is_none());
    }
    let least = chrono::DateTime::<chrono::Utc>::MIN_UTC.timestamp_millis();
    let greatest = chrono::DateTime::<chrono::Utc>::MAX_UTC.timestamp_millis();
    assert_eq!(least, yrs_wrappers::yrs_basic_types::TIMESTAMP_MIN);
    assert_eq!(greatest, yrs_wrappers::yrs_basic_types::TIMESTAMP_MAX);
    assert_eq!(YDateTimePrelim::from_timestamp_millis(least).unwrap().timestamp_millis(), least);
    assert!(YDateTimePrelim::from_timestamp_millis(least - 1).is_none());
    assert!(YDateTimePrelim::from_timestamp_millis(greatest).is_some());
    assert!(YDateTimePrelim::from_timestamp_millis(greatest + 1).is_none());
    assert!(chrono::DateTime::from_timestamp_millis(least - 1).is_none());
    assert!(chrono::DateTime::from_timestamp_millis(greatest + 1).is_none());
    assert!(YDateTimePrelim::from_checked(5, true).is_some());
    assert!(YDateTimePrelim::from_checked(i64::MAX, false).is_none());
}

#[test]
fn every_duration_exists_but_the_least() {
    for millis in [0, 60_000, -60_000, i64::MAX, i64::MIN + 1] {
        let p = YDurationPrelim::milliseconds(millis).unwrap();
        assert_eq!(p.num_milliseconds(), millis);
        assert_eq!(chrono::TimeDelta::try_milliseconds(millis).unwrap().num_milliseconds(), millis);
    }
    assert!(YDurationPrelim::milliseconds(i64::MIN).is_none());
    assert!(chrono::TimeDelta::try_milliseconds(i64::MIN).is_none());
}

#[test]
fn decoding_a_boolean() {
    assert!(YBool::from_value(&Value::Bool(true)).unwrap().get());
    assert!(!YBool::from_value(&Value::Bool(false)).unwrap().get());
    for other in [Value::BigInt(1), Value::Str("true".to_owned()), Value::OtherAny, Value::Other] {
        assert!(matches!(
            YBool::from_value(&other),
            Err(YrsWrapperError::WrongKind { expected: Kind::Bool })
        ));
    }
}

#[test]
fn decoding_a_timestamp() {
    assert_eq!(YDateTime::from_value(&Value::BigInt(42)).unwrap().timestamp_millis(), 42);
    assert!(matches!(
        YDateTime::from_value(&Value::BigInt(i64::MIN)),
        Err(YrsWrapperError::ValueOutOfRange)
    ));
    assert!(matches!(
        YDateTime::from_value(&Value::Bool(true)),
        Err(YrsWrapperError::WrongKind { expected: Kind::BigInt })
    ));
    assert_eq!(YDateTime::from_checked(&Value::BigInt(7), true).unwrap().timestamp_millis(), 7);
    assert!(matches!(
        YDateTime::from_checked(&Value::BigInt(i64::MAX), false),
        Err(YrsWrapperError::ValueOutOfRange)
    ));
    assert!(matches!(
        YDateTime::from_checked(&Value::OtherAny, true),
        Err(YrsWrapperError::WrongKind { expected: Kind::BigInt })
    ));
}

#[test]
fn decoding_a_duration() {
    assert_eq!(YDuration::from_value(&Value::BigInt(-42)).unwrap().num_milliseconds(), -42);
    assert_eq!(
        YDuration::from_value(&Value::BigInt(i64::MAX)).unwrap().num_milliseconds(),
        i64::MAX,
    );
    assert!(matches!(
        YDuration::from_value(&Value::BigInt(i64::MIN)),
        Err(YrsWrapperError::ValueOutOfRange)
    ));
    assert!(matches!(
        YDuration::from_value(&Value::Str("1".to_owned())),
        Err(YrsWrapperError::WrongKind { expected: Kind::BigInt })
    ));
}

