use spin_sdk::pg3::check_date;
use spin_sdk::pg3::check_time;
use spin_sdk::pg3::format_decode_err;
use spin_sdk::pg3::kind_name;
use spin_sdk::pg3::Date;
use spin_sdk::pg3::DateTime;
use spin_sdk::pg3::DbValue;
use spin_sdk::pg3::Decode;
use spin_sdk::pg3::Duration;
use spin_sdk::pg3::Error;
use spin_sdk::pg3::ParameterValue;
use spin_sdk::pg3::PgError;
use spin_sdk::pg3::Real32;
use spin_sdk::pg3::Real64;
use spin_sdk::pg3::Time;

#[test]
fn boolean() {
    assert!(bool::decode(&DbValue::Boolean(true)).unwrap());
    assert!(bool::decode(&DbValue::Int32(0)).is_err());
    assert!(Option::<bool>::decode(&DbValue::DbNull).unwrap().is_none());
}

#[test]
fn int16() {
    assert_eq!(i16::decode(&DbValue::Int16(0)).unwrap(), 0);
    assert!(i16::decode(&DbValue::Int32(0)).is_err());
    assert!(Option::<i16>::decode(&DbValue::DbNull).unwrap().is_none());
}

#[test]
fn int32() {
    assert_eq!(i32::decode(&DbValue::Int32(0)).unwrap(), 0);
    assert!(i32::decode(&DbValue::Boolean(false)).is_err());
    assert!(Option::<i32>::decode(&DbValue::DbNull).unwrap().is_none());
}

#[test]
fn int64() {
    assert_eq!(i64::decode(&DbValue::Int64(0)).unwrap(), 0);
    assert!(i64::decode(&DbValue::Boolean(false)).is_err());
    assert!(Option::<i64>::decode(&DbValue::DbNull).unwrap().is_none());
}

#[test]
fn floating32() {
    assert!(Real32::decode(&DbValue::Floating32(0.0f32.to_bits())).is_ok());
    assert!(Real32::decode(&DbValue::Boolean(false)).is_err());
    assert!(Option::<Real32>::decode(&DbValue::DbNull).unwrap().is_none());
}

#[test]
fn floating64() {
    assert!(Real64::decode(&DbValue::Floating64(0.0f64.to_bits())).is_ok());
    assert!(Real64::decode(&DbValue::Boolean(false)).is_err());
    assert!(Option::<Real64>::decode(&DbValue::DbNull).unwrap().is_none());
}

#[test]
fn str() {
    assert_eq!(
        String::decode(&DbValue::Str(String::from("foo"))).unwrap(),
        String::from("foo")
    );

    assert!(String::decode(&DbValue::Int32(0)).is_err());
    assert!(Option::<String>::decode(&DbValue::DbNull)
        .unwrap()
        .is_none());
}

#[test]
fn binary() {
    assert!(Vec::<u8>::decode(&DbValue::Binary(vec![0, 0])).is_ok());
    assert!(Vec::<u8>::decode(&DbValue::Boolean(false)).is_err());
    assert!(Option::<Vec<u8>>::decode(&DbValue::DbNull)
        .unwrap()
        .is_none());
}

#[test]
fn date() {
    assert_eq!(
        Date::decode(&DbValue::Date((1, 2, 4))).unwrap(),
        Date { year: 1, month: 2, day: 4 }
    );
    assert_ne!(
        Date::decode(&DbValue::Date((1, 2, 4))).unwrap(),
        Date { year: 1, month: 2, day: 5 }
    );
    assert!(Option::<Date>::decode(&DbValue::DbNull).unwrap().is_none());
}

#[test]
fn time() {
    assert_eq!(
        Time::decode(&DbValue::Time((1, 2, 3, 4))).unwrap(),
        Time { hour: 1, minute: 2, second: 3, nanosecond: 4 }
    );
    assert_ne!(
        Time::decode(&DbValue::Time((1, 2, 3, 4))).unwrap(),
        Time { hour: 1, minute: 2, second: 4, nanosecond: 5 }
    );
    assert!(Option::<Time>::decode(&DbValue::DbNull).unwrap().is_none());
}

#[test]
fn datetime() {
    let date = Date { year: 1, month: 2, day: 3 };
    let mut time = Time { hour: 4, minute: 5, second: 6, nanosecond: 7 };
    assert_eq!(
        DateTime::decode(&DbValue::Datetime((1, 2, 3, 4, 5, 6, 7))).unwrap(),
        DateTime { date, time }
    );

    time = Time { hour: 4, minute: 5, second: 6, nanosecond: 8 };
    assert_ne!(
        DateTime::decode(&DbValue::Datetime((1, 2, 3, 4, 5, 6, 7))).unwrap(),
        DateTime { date, time }
    );
    assert!(Option::<DateTime>::decode(&DbValue::DbNull)
        .unwrap()
        .is_none());
}

#[test]
fn timestamp() {
    assert_eq!(
        Duration::decode(&DbValue::Timestamp(1)).unwrap(),
        Duration::seconds(1),
    );
    assert_ne!(
        Duration::decode(&DbValue::Timestamp(2)).unwrap(),
        Duration::seconds(1)
    );
    assert!(Option::<Duration>::decode(&DbValue::DbNull)
        .unwrap()
        .is_none());
}

#[test]
fn invalid_dates_are_decode_errors() {
    assert!(Date::decode(&DbValue::Date((2024, 2, 29))).is_ok());
    assert!(Date::decode(&DbValue::Date((2023, 2, 29))).is_err());
    assert!(Date::decode(&DbValue::Date((2000, 2, 29))).is_ok());
    assert!(Date::decode(&DbValue::Date((1900, 2, 29))).is_err());
    assert!(Date::decode(&DbValue::Date((1, 0, 1))).is_err());
    assert!(Date::decode(&DbValue::Date((1, 13, 1))).is_err());
    assert!(Date::decode(&DbValue::Date((1, 4, 31))).is_err());
    assert!(Date::decode(&DbValue::Date((1, 4, 30))).is_ok());
    assert!(Date::decode(&DbValue::Date((-4, 2, 29))).is_ok());
}

#[test]
fn invalid_times_are_decode_errors() {
    assert!(Time::decode(&DbValue::Time((23, 59, 59, 1_999_999_999))).is_ok());
    assert!(Time::decode(&DbValue::Time((23, 59, 59, 2_000_000_000))).is_err());
    assert!(Time::decode(&DbValue::Time((24, 0, 0, 0))).is_err());
    assert!(Time::decode(&DbValue::Time((0, 60, 0, 0))).is_err());
    assert!(Time::decode(&DbValue::Time((0, 0, 60, 0))).is_err());
}

#[test]
fn calendar_checks() {
    assert!(check_date(2024, 12, 31));
    assert!(!check_date(2024, 12, 32));
    assert!(check_time(0, 0, 0, 0));
    assert!(!check_time(0, 0, 0, u32::MAX));
}

#[test]
fn decode_error_messages() {
    assert_eq!(kind_name(&DbValue::Int32(0)), "Int32");
    assert_eq!(
        format_decode_err("BOOL", &DbValue::Int32(0)),
        "Expected BOOL from the DB but got Int32"
    );
    match bool::decode(&DbValue::Int32(0)) {
        Err(Error::Decode(msg)) => {
            assert_eq!(msg, "Expected BOOL from the DB but got Int32");
        }
        _ => panic!("expected a decode error"),
    }
}

#[test]
fn parameter_conversions() {
    assert_eq!(ParameterValue::from(true), ParameterValue::Boolean(true));
    assert_eq!(ParameterValue::from(1i8), ParameterValue::Int8(1));
    assert_eq!(ParameterValue::from(2i16), ParameterValue::Int16(2));
    assert_eq!(ParameterValue::from(3i32), ParameterValue::Int32(3));
    assert_eq!(ParameterValue::from(4i64), ParameterValue::Int64(4));
    assert_eq!(
        ParameterValue::from(String::from("x")),
        ParameterValue::Str(String::from("x"))
    );
    assert_eq!(
        ParameterValue::from(vec![1u8, 2]),
        ParameterValue::Binary(vec![1, 2])
    );
    assert_eq!(
        ParameterValue::from(Real32 { bits: 7 }),
        ParameterValue::Floating32(7)
    );
    assert_eq!(
        ParameterValue::from(Real64 { bits: 8 }),
        ParameterValue::Floating64(8)
    );
    assert_eq!(
        ParameterValue::from(Date { year: 1, month: 2, day: 3 }),
        ParameterValue::Date((1, 2, 3))
    );
    assert_eq!(
        ParameterValue::from(Time { hour: 1, minute: 2, second: 3, nanosecond: 4 }),
        ParameterValue::Time((1, 2, 3, 4))
    );
    assert_eq!(
        ParameterValue::from(DateTime {
            date: Date { year: 1, month: 2, day: 3 },
            time: Time { hour: 4, minute: 5, second: 6, nanosecond: 7 },
        }),
        ParameterValue::Datetime((1, 2, 3, 4, 5, 6, 7))
    );
    assert_eq!(
        ParameterValue::from(Duration::seconds(9)),
        ParameterValue::Timestamp(9)
    );
    assert_eq!(ParameterValue::from(Some(5i64)), ParameterValue::Int64(5));
    assert_eq!(ParameterValue::from(None::<i64>), ParameterValue::DbNull);
    assert_eq!(
        Error::from(PgError::QueryFailed(String::from("boom"))),
        Error::PgError(PgError::QueryFailed(String::from("boom")))
    );
}
