//! Conversions between Rust values and database values.
//!
//! A database row cell arrives as a [`DbValue`]; the [`Decode`] trait turns
//! it into a typed Rust value, failing with a decode error when the cell has
//! the wrong shape.  Query parameters travel the other way as
//! [`ParameterValue`].  Dates, times and datetimes are plain field records
//! validated against the proleptic Gregorian calendar; floating-point cells
//! are carried as their IEEE 754 bit patterns.

use vstd::prelude::*;
use vstd::slice::slice_to_vec;
use vstd::string::StringExecFns;

verus! {

/// A value read from the database.
#[derive(PartialEq, Eq, Debug)]
pub enum DbValue {
    /// BOOL
    Boolean(bool),
    /// SMALLINT, SMALLSERIAL, INT2
    Int16(i16),
    /// INT, SERIAL, INT4
    Int32(i32),
    /// BIGINT, BIGSERIAL, INT8
    Int64(i64),
    /// REAL, FLOAT4, as the IEEE 754 bit pattern
    Floating32(u32),
    /// DOUBLE PRECISION, FLOAT8, as the IEEE 754 bit pattern
    Floating64(u64),
    /// VARCHAR, CHAR(N), TEXT
    Str(String),
    /// BYTEA
    Binary(Vec<u8>),
    /// DATE, as (year, month, day)
    Date((i32, u8, u8)),
    /// TIME, as (hour, minute, second, nanosecond)
    Time((u8, u8, u8, u32)),
    /// TIMESTAMP, as (year, month, day, hour, minute, second, nanosecond)
    Datetime((i32, u8, u8, u8, u8, u8, u32)),
    /// BIGINT interpreted as whole seconds
    Timestamp(i64),
    /// SQL NULL
    DbNull,
}

/// A value passed to the database as a query parameter.
#[derive(PartialEq, Eq, Debug)]
pub enum ParameterValue {
    /// BOOL
    Boolean(bool),
    /// TINYINT
    Int8(i8),
    /// SMALLINT
    Int16(i16),
    /// INT
    Int32(i32),
    /// BIGINT
    Int64(i64),
    /// REAL, as the IEEE 754 bit pattern
    Floating32(u32),
    /// DOUBLE PRECISION, as the IEEE 754 bit pattern
    Floating64(u64),
    /// Character data
    Str(String),
    /// BYTEA
    Binary(Vec<u8>),
    /// DATE, as (year, month, day)
    Date((i32, u8, u8)),
    /// TIME, as (hour, minute, second, nanosecond)
    Time((u8, u8, u8, u32)),
    /// TIMESTAMP, as (year, month, day, hour, minute, second, nanosecond)
    Datetime((i32, u8, u8, u8, u8, u8, u32)),
    /// BIGINT interpreted as whole seconds
    Timestamp(i64),
    /// SQL NULL
    DbNull,
}

/// An error reported by the database itself.
#[derive(PartialEq, Eq, Debug)]
pub enum PgError {
    /// The connection could not be established.
    ConnectionFailed(String),
    /// A query parameter was rejected.
    BadParameter(String),
    /// The query failed.
    QueryFailed(String),
    /// A value could not be converted on the database side.
    ValueConversionFailed(String),
    /// Any other database-reported failure.
    Other(String),
}

/// A database error: either a decode failure on this side, or an error the
/// database reported.
#[derive(PartialEq, Eq, Debug)]
pub enum Error {
    /// A [`DbValue`] did not have the shape the caller asked for.
    Decode(String),
    /// The database reported this error.
    PgError(PgError),
}

/// A type that can be decoded from a database value.
pub trait Decode: Sized + DeepView {
    /// Which database values decode into this type, and to what.
    spec fn decoded(value: DbValue) -> Option<Self>;

    /// Decode a database value, succeeding exactly on the values
    /// [`Decode::decoded`] accepts and failing with a decode error on every
    /// other shape.
    fn decode(value: &DbValue) -> (r: Result<Self, Error>)
        ensures
            match Self::decoded(*value) {
                Some(v) => r matches Ok(got) && got.deep_view() == v.deep_view(),
                None => r matches Err(e) && e is Decode,
            },
    ;
}

/// The SQL type family of a database value, for decode error messages.
pub open spec fn kind_name_spec(value: DbValue) -> Seq<char> {
    match value {
        DbValue::Boolean(_) => "Boolean"@,
        DbValue::Int16(_) => "Int16"@,
        DbValue::Int32(_) => "Int32"@,
        DbValue::Int64(_) => "Int64"@,
        DbValue::Floating32(_) => "Floating32"@,
        DbValue::Floating64(_) => "Floating64"@,
        DbValue::Str(_) => "Str"@,
        DbValue::Binary(_) => "Binary"@,
        DbValue::Date(_) => "Date"@,
        DbValue::Time(_) => "Time"@,
        DbValue::Datetime(_) => "Datetime"@,
        DbValue::Timestamp(_) => "Timestamp"@,
        DbValue::DbNull => "DbNull"@,
    }
}

/// The name of a database value's shape, used in decode error messages.
pub fn kind_name(value: &DbValue) -> (r: &'static str)
    ensures
        r@ == kind_name_spec(*value),
{
    match value {
        DbValue::Boolean(_) => "Boolean",
        DbValue::Int16(_) => "Int16",
        DbValue::Int32(_) => "Int32",
        DbValue::Int64(_) => "Int64",
        DbValue::Floating32(_) => "Floating32",
        DbValue::Floating64(_) => "Floating64",
        DbValue::Str(_) => "Str",
        DbValue::Binary(_) => "Binary",
        DbValue::Date(_) => "Date",
        DbValue::Time(_) => "Time",
        DbValue::Datetime(_) => "Datetime",
        DbValue::Timestamp(_) => "Timestamp",
        DbValue::DbNull => "DbNull",
    }
}

/// The text of a decode error: the SQL types the caller expected and the
/// shape the database actually sent.
pub open spec fn decode_err_text(types: Seq<char>, value: DbValue) -> Seq<char> {
    "Expected "@ + types + " from the DB but got "@ + kind_name_spec(value)
}

/// Render a decode error message naming the expected SQL types and the
/// value's actual shape.
pub fn format_decode_err(types: &str, value: &DbValue) -> (r: String)
    ensures
        r@ == decode_err_text(types@, *value),
{
    let mut s = String::new();
    s.append("Expected ");
    s.append(types);
    s.append(" from the DB but got ");
    s.append(kind_name(value));
    proof {
        assert(s@ =~= decode_err_text(types@, *value));
    }
    s
}

impl Decode for bool {
    open spec fn decoded(value: DbValue) -> Option<bool> {
        match value {
            DbValue::Boolean(b) => Some(b),
            _ => None,
        }
    }

    fn decode(value: &DbValue) -> (r: Result<bool, Error>) {
        match value {
            DbValue::Boolean(b) => Ok(*b),
            _ => Err(Error::Decode(format_decode_err("BOOL", value))),
        }
    }
}

impl Decode for i16 {
    open spec fn decoded(value: DbValue) -> Option<i16> {
        match value {
            DbValue::Int16(n) => Some(n),
            _ => None,
        }
    }

    fn decode(value: &DbValue) -> (r: Result<i16, Error>) {
        match value {
            DbValue::Int16(n) => Ok(*n),
            _ => Err(Error::Decode(format_decode_err("SMALLINT", value))),
        }
    }
}

impl Decode for i32 {
    open spec fn decoded(value: DbValue) -> Option<i32> {
        match value {
            DbValue::Int32(n) => Some(n),
            _ => None,
        }
    }

    fn decode(value: &DbValue) -> (r: Result<i32, Error>) {
        match value {
            DbValue::Int32(n) => Ok(*n),
            _ => Err(Error::Decode(format_decode_err("INT", value))),
        }
    }
}

impl Decode for i64 {
    open spec fn decoded(value: DbValue) -> Option<i64> {
        match value {
            DbValue::Int64(n) => Some(n),
            _ => None,
        }
    }

    fn decode(value: &DbValue) -> (r: Result<i64, Error>) {
        match value {
            DbValue::Int64(n) => Ok(*n),
            _ => Err(Error::Decode(format_decode_err("BIGINT", value))),
        }
    }
}

/// A single-precision floating-point cell, carried as its bit pattern.
#[derive(Clone, Copy, PartialEq, Eq, Structural, Debug)]
pub struct Real32 {
    /// The IEEE 754 binary32 bit pattern.
    pub bits: u32,
}

/// A double-precision floating-point cell, carried as its bit pattern.
#[derive(Clone, Copy, PartialEq, Eq, Structural, Debug)]
pub struct Real64 {
    /// The IEEE 754 binary64 bit pattern.
    pub bits: u64,
}

impl DeepView for Real32 {
    type V = Real32;

    open spec fn deep_view(&self) -> Real32 {
        *self
    }
}

impl DeepView for Real64 {
    type V = Real64;

    open spec fn deep_view(&self) -> Real64 {
        *self
    }
}

impl Decode for Real32 {
    open spec fn decoded(value: DbValue) -> Option<Real32> {
        match value {
            DbValue::Floating32(bits) => Some(Real32 { bits }),
            _ => None,
        }
    }

    fn decode(value: &DbValue) -> (r: Result<Real32, Error>) {
        match value {
            DbValue::Floating32(bits) => Ok(Real32 { bits: *bits }),
            _ => Err(Error::Decode(format_decode_err("REAL", value))),
        }
    }
}

impl Decode for Real64 {
    open spec fn decoded(value: DbValue) -> Option<Real64> {
        match value {
            DbValue::Floating64(bits) => Some(Real64 { bits }),
            _ => None,
        }
    }

    fn decode(value: &DbValue) -> (r: Result<Real64, Error>) {
        match value {
            DbValue::Floating64(bits) => Ok(Real64 { bits: *bits }),
            _ => Err(Error::Decode(format_decode_err("DOUBLE PRECISION", value))),
        }
    }
}

impl Decode for Vec<u8> {
    open spec fn decoded(value: DbValue) -> Option<Vec<u8>> {
        match value {
            DbValue::Binary(b) => Some(b),
            _ => None,
        }
    }

    fn decode(value: &DbValue) -> (r: Result<Vec<u8>, Error>) {
        match value {
            DbValue::Binary(b) => {
                let out = slice_to_vec(b.as_slice());
                proof {
                    assert(out.deep_view() =~= b.deep_view());
                }
                Ok(out)
            },
            _ => Err(Error::Decode(format_decode_err("BYTEA", value))),
        }
    }
}

impl Decode for String {
    open spec fn decoded(value: DbValue) -> Option<String> {
        match value {
            DbValue::Str(s) => Some(s),
            _ => None,
        }
    }

    fn decode(value: &DbValue) -> (r: Result<String, Error>) {
        match value {
            DbValue::Str(s) => Ok(s.clone()),
            _ => Err(Error::Decode(format_decode_err("CHAR, VARCHAR, TEXT", value))),
        }
    }
}

impl<T: Decode> Decode for Option<T> {
    open spec fn decoded(value: DbValue) -> Option<Option<T>> {
        match value {
            DbValue::DbNull => Some(None),
            v => match T::decoded(v) {
                Some(t) => Some(Some(t)),
                None => None,
            },
        }
    }

    fn decode(value: &DbValue) -> (r: Result<Option<T>, Error>) {
        match value {
            DbValue::DbNull => Ok(None),
            v => match T::decode(v) {
                Ok(t) => Ok(Some(t)),
                Err(e) => Err(e),
            },
        }
    }
}

/// The magnitude of an integer.
pub open spec fn abs_int(y: int) -> int {
    if y >= 0 {
        y
    } else {
        -y
    }
}

/// The proleptic Gregorian leap-year rule, applied to the astronomical year
/// number (divisibility is unaffected by sign).
pub open spec fn is_leap_year(y: int) -> bool {
    abs_int(y) % 4 == 0 && (abs_int(y) % 100 != 0 || abs_int(y) % 400 == 0)
}

/// Days in a month of the proleptic Gregorian calendar.
pub open spec fn days_in_month(y: int, m: int) -> int {
    if m == 2 {
        if is_leap_year(y) {
            29
        } else {
            28
        }
    } else if m == 4 || m == 6 || m == 9 || m == 11 {
        30
    } else {
        31
    }
}

/// Whether (year, month, day) names a real proleptic Gregorian date.
pub open spec fn date_valid(y: int, m: int, d: int) -> bool {
    1 <= m <= 12 && 1 <= d <= days_in_month(y, m)
}

/// Whether (hour, minute, second, nanosecond) names a time of day; the
/// nanosecond field may reach into the second billion to represent a leap
/// second.
pub open spec fn time_valid(h: int, mi: int, s: int, nano: int) -> bool {
    0 <= h < 24 && 0 <= mi < 60 && 0 <= s < 60 && 0 <= nano < 2_000_000_000
}

/// Whether the astronomical year is a leap year.
pub fn leap_year(y: i32) -> (b: bool)
    ensures
        b == is_leap_year(y as int),
{
    let ay: u64 = if y < 0 {
        (-(y as i64)) as u64
    } else {
        y as u64
    };
    proof {
        assert(ay == abs_int(y as int));
    }
    ay % 4 == 0 && (ay % 100 != 0 || ay % 400 == 0)
}

/// Whether (year, month, day) names a real date.
pub fn check_date(y: i32, m: u8, d: u8) -> (b: bool)
    ensures
        b == date_valid(y as int, m as int, d as int),
{
    if m < 1 || m > 12 {
        return false;
    }
    let dim: u8 = if m == 2 {
        if leap_year(y) {
            29
        } else {
            28
        }
    } else if m == 4 || m == 6 || m == 9 || m == 11 {
        30
    } else {
        31
    };
    1 <= d && d <= dim
}

/// Whether (hour, minute, second, nanosecond) names a time of day.
pub fn check_time(h: u8, mi: u8, s: u8, nano: u32) -> (b: bool)
    ensures
        b == time_valid(h as int, mi as int, s as int, nano as int),
{
    h < 24 && mi < 60 && s < 60 && nano < 2_000_000_000
}

/// A calendar date, valid by [`date_valid`] whenever it was decoded.
#[derive(Clone, Copy, PartialEq, Eq, Structural, Debug)]
pub struct Date {
    /// Astronomical year number.
    pub year: i32,
    /// Month, 1 to 12.
    pub month: u8,
    /// Day of the month, 1-based.
    pub day: u8,
}

/// A time of day, valid by [`time_valid`] whenever it was decoded.
#[derive(Clone, Copy, PartialEq, Eq, Structural, Debug)]
pub struct Time {
    /// Hour, 0 to 23.
    pub hour: u8,
    /// Minute, 0 to 59.
    pub minute: u8,
    /// Second, 0 to 59.
    pub second: u8,
    /// Nanoseconds within the second; values of one billion and above
    /// represent a leap second.
    pub nanosecond: u32,
}

/// A calendar date with a time of day.
#[derive(Clone, Copy, PartialEq, Eq, Structural, Debug)]
pub struct DateTime {
    /// The date half.
    pub date: Date,
    /// The time-of-day half.
    pub time: Time,
}

/// A span of whole seconds.
#[derive(Clone, Copy, PartialEq, Eq, Structural, Debug)]
pub struct Duration {
    /// Signed number of seconds.
    pub secs: i64,
}

impl Duration {
    /// A duration of this many whole seconds.
    pub fn seconds(secs: i64) -> (r: Duration)
        ensures
            r == (Duration { secs }),
    {
        Duration { secs }
    }
}

impl DeepView for Date {
    type V = Date;

    open spec fn deep_view(&self) -> Date {
        *self
    }
}

impl DeepView for Time {
    type V = Time;

    open spec fn deep_view(&self) -> Time {
        *self
    }
}

impl DeepView for DateTime {
    type V = DateTime;

    open spec fn deep_view(&self) -> DateTime {
        *self
    }
}

impl DeepView for Duration {
    type V = Duration;

    open spec fn deep_view(&self) -> Duration {
        *self
    }
}

impl Decode for Date {
    open spec fn decoded(value: DbValue) -> Option<Date> {
        match value {
            DbValue::Date(parts) => if date_valid(parts.0 as int, parts.1 as int, parts.2 as int) {
                Some(Date { year: parts.0, month: parts.1, day: parts.2 })
            } else {
                None
            },
            _ => None,
        }
    }

    fn decode(value: &DbValue) -> (r: Result<Date, Error>) {
        match value {
            DbValue::Date(parts) => {
                let (y, m, d) = *parts;
                if check_date(y, m, d) {
                    Ok(Date { year: y, month: m, day: d })
                } else {
                    Err(Error::Decode(String::from_str("invalid date")))
                }
            },
            _ => Err(Error::Decode(format_decode_err("DATE", value))),
        }
    }
}

impl Decode for Time {
    open spec fn decoded(value: DbValue) -> Option<Time> {
        match value {
            DbValue::Time(parts) => if time_valid(
                parts.0 as int,
                parts.1 as int,
                parts.2 as int,
                parts.3 as int,
            ) {
                Some(Time { hour: parts.0, minute: parts.1, second: parts.2, nanosecond: parts.3 })
            } else {
                None
            },
            _ => None,
        }
    }

    fn decode(value: &DbValue) -> (r: Result<Time, Error>) {
        match value {
            DbValue::Time(parts) => {
                let (h, mi, s, nano) = *parts;
                if check_time(h, mi, s, nano) {
                    Ok(Time { hour: h, minute: mi, second: s, nanosecond: nano })
                } else {
                    Err(Error::Decode(String::from_str("invalid time")))
                }
            },
            _ => Err(Error::Decode(format_decode_err("TIME", value))),
        }
    }
}

impl Decode for DateTime {
    open spec fn decoded(value: DbValue) -> Option<DateTime> {
        match value {
            DbValue::Datetime(parts) => if date_valid(
                parts.0 as int,
                parts.1 as int,
                parts.2 as int,
            ) && time_valid(parts.3 as int, parts.4 as int, parts.5 as int, parts.6 as int) {
                Some(
                    DateTime {
                        date: Date { year: parts.0, month: parts.1, day: parts.2 },
                        time: Time {
                            hour: parts.3,
                            minute: parts.4,
                            second: parts.5,
                            nanosecond: parts.6,
                        },
                    },
                )
            } else {
                None
            },
            _ => None,
        }
    }

    fn decode(value: &DbValue) -> (r: Result<DateTime, Error>) {
        match value {
            DbValue::Datetime(parts) => {
                let (y, m, d, h, mi, s, nano) = *parts;
                if !check_date(y, m, d) {
                    Err(Error::Decode(String::from_str("invalid date")))
                } else if !check_time(h, mi, s, nano) {
                    Err(Error::Decode(String::from_str("invalid time")))
                } else {
                    Ok(
                        DateTime {
                            date: Date { year: y, month: m, day: d },
                            time: Time { hour: h, minute: mi, second: s, nanosecond: nano },
                        },
                    )
                }
            },
            _ => Err(Error::Decode(format_decode_err("DATETIME", value))),
        }
    }
}

impl Decode for Duration {
    open spec fn decoded(value: DbValue) -> Option<Duration> {
        match value {
            DbValue::Timestamp(n) => Some(Duration { secs: n }),
            _ => None,
        }
    }

    fn decode(value: &DbValue) -> (r: Result<Duration, Error>) {
        match value {
            DbValue::Timestamp(n) => Ok(Duration { secs: *n }),
            _ => Err(Error::Decode(format_decode_err("BIGINT", value))),
        }
    }
}

impl From<bool> for ParameterValue {
    fn from(v: bool) -> (r: ParameterValue) {
        ParameterValue::Boolean(v)
    }
}

impl vstd::std_specs::convert::FromSpecImpl<bool> for ParameterValue {
    open spec fn obeys_from_spec() -> bool {
        true
    }

    open spec fn from_spec(v: bool) -> ParameterValue {
        ParameterValue::Boolean(v)
    }
}

impl From<i8> for ParameterValue {
    fn from(v: i8) -> (r: ParameterValue) {
        ParameterValue::Int8(v)
    }
}

impl vstd::std_specs::convert::FromSpecImpl<i8> for ParameterValue {
    open spec fn obeys_from_spec() -> bool {
        true
    }

    open spec fn from_spec(v: i8) -> ParameterValue {
        ParameterValue::Int8(v)
    }
}

impl From<i16> for ParameterValue {
    fn from(v: i16) -> (r: ParameterValue) {
        ParameterValue::Int16(v)
    }
}

impl vstd::std_specs::convert::FromSpecImpl<i16> for ParameterValue {
    open spec fn obeys_from_spec() -> bool {
        true
    }

    open spec fn from_spec(v: i16) -> ParameterValue {
        ParameterValue::Int16(v)
    }
}

impl From<i32> for ParameterValue {
    fn from(v: i32) -> (r: ParameterValue) {
        ParameterValue::Int32(v)
    }
}

impl vstd::std_specs::convert::FromSpecImpl<i32> for ParameterValue {
    open spec fn obeys_from_spec() -> bool {
        true
    }

    open spec fn from_spec(v: i32) -> ParameterValue {
        ParameterValue::Int32(v)
    }
}

impl From<i64> for ParameterValue {
    fn from(v: i64) -> (r: ParameterValue) {
        ParameterValue::Int64(v)
    }
}

impl vstd::std_specs::convert::FromSpecImpl<i64> for ParameterValue {
    open spec fn obeys_from_spec() -> bool {
        true
    }

    open spec fn from_spec(v: i64) -> ParameterValue {
        ParameterValue::Int64(v)
    }
}

impl From<Real32> for ParameterValue {
    fn from(v: Real32) -> (r: ParameterValue) {
        ParameterValue::Floating32(v.bits)
    }
}

impl vstd::std_specs::convert::FromSpecImpl<Real32> for ParameterValue {
    open spec fn obeys_from_spec() -> bool {
        true
    }

    open spec fn from_spec(v: Real32) -> ParameterValue {
        ParameterValue::Floating32(v.bits)
    }
}

impl From<Real64> for ParameterValue {
    fn from(v: Real64) -> (r: ParameterValue) {
        ParameterValue::Floating64(v.bits)
    }
}

impl vstd::std_specs::convert::FromSpecImpl<Real64> for ParameterValue {
    open spec fn obeys_from_spec() -> bool {
        true
    }

    open spec fn from_spec(v: Real64) -> ParameterValue {
        ParameterValue::Floating64(v.bits)
    }
}

impl From<String> for ParameterValue {
    fn from(v: String) -> (r: ParameterValue) {
        ParameterValue::Str(v)
    }
}

impl vstd::std_specs::convert::FromSpecImpl<String> for ParameterValue {
    open spec fn obeys_from_spec() -> bool {
        true
    }

    open spec fn from_spec(v: String) -> ParameterValue {
        ParameterValue::Str(v)
    }
}

impl From<Vec<u8>> for ParameterValue {
    fn from(v: Vec<u8>) -> (r: ParameterValue) {
        ParameterValue::Binary(v)
    }
}

impl vstd::std_specs::convert::FromSpecImpl<Vec<u8>> for ParameterValue {
    open spec fn obeys_from_spec() -> bool {
        true
    }

    open spec fn from_spec(v: Vec<u8>) -> ParameterValue {
        ParameterValue::Binary(v)
    }
}

impl From<Date> for ParameterValue {
    fn from(v: Date) -> (r: ParameterValue) {
        ParameterValue::Date((v.year, v.month, v.day))
    }
}

impl vstd::std_specs::convert::FromSpecImpl<Date> for ParameterValue {
    open spec fn obeys_from_spec() -> bool {
        true
    }

    open spec fn from_spec(v: Date) -> ParameterValue {
        ParameterValue::Date((v.year, v.month, v.day))
    }
}

impl From<Time> for ParameterValue {
    fn from(v: Time) -> (r: ParameterValue) {
        ParameterValue::Time((v.hour, v.minute, v.second, v.nanosecond))
    }
}

impl vstd::std_specs::convert::FromSpecImpl<Time> for ParameterValue {
    open spec fn obeys_from_spec() -> bool {
        true
    }

    open spec fn from_spec(v: Time) -> ParameterValue {
        ParameterValue::Time((v.hour, v.minute, v.second, v.nanosecond))
    }
}

impl From<DateTime> for ParameterValue {
    fn from(v: DateTime) -> (r: ParameterValue) {
        ParameterValue::Datetime(
            (
                v.date.year,
                v.date.month,
                v.date.day,
                v.time.hour,
                v.time.minute,
                v.time.second,
                v.time.nanosecond,
            ),
        )
    }
}

impl vstd::std_specs::convert::FromSpecImpl<DateTime> for ParameterValue {
    open spec fn obeys_from_spec() -> bool {
        true
    }

    open spec fn from_spec(v: DateTime) -> ParameterValue {
        ParameterValue::Datetime(
            (
                v.date.year,
                v.date.month,
                v.date.day,
                v.time.hour,
                v.time.minute,
                v.time.second,
                v.time.nanosecond,
            ),
        )
    }
}

impl From<Duration> for ParameterValue {
    fn from(v: Duration) -> (r: ParameterValue) {
        ParameterValue::Timestamp(v.secs)
    }
}

impl vstd::std_specs::convert::FromSpecImpl<Duration> for ParameterValue {
    open spec fn obeys_from_spec() -> bool {
        true
    }

    open spec fn from_spec(v: Duration) -> ParameterValue {
        ParameterValue::Timestamp(v.secs)
    }
}

impl From<PgError> for Error {
    fn from(v: PgError) -> (r: Error) {
        Error::PgError(v)
    }
}

impl vstd::std_specs::convert::FromSpecImpl<PgError> for Error {
    open spec fn obeys_from_spec() -> bool {
        true
    }

    open spec fn from_spec(v: PgError) -> Error {
        Error::PgError(v)
    }
}

impl<T> From<Option<T>> for ParameterValue where ParameterValue: From<T> {
    fn from(v: Option<T>) -> (r: ParameterValue) {
        match v {
            Some(x) => ParameterValue::from(x),
            None => ParameterValue::DbNull,
        }
    }
}

impl<T> vstd::std_specs::convert::FromSpecImpl<Option<T>> for ParameterValue where ParameterValue: From<T> {
    open spec fn obeys_from_spec() -> bool {
        <ParameterValue as vstd::std_specs::convert::FromSpec<T>>::obeys_from_spec()
    }

    open spec fn from_spec(v: Option<T>) -> ParameterValue {
        match v {
            Some(x) => <ParameterValue as vstd::std_specs::convert::FromSpec<T>>::from_spec(x),
            None => ParameterValue::DbNull,
        }
    }
}

} // verus!
