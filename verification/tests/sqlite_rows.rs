use spin_sdk::pg3::Real64;
use spin_sdk::sqlite::QueryResult;
use spin_sdk::sqlite::RowResult;
use spin_sdk::sqlite::Value;

#[test]
fn integers_convert_when_they_fit() {
    let row = RowResult { values: vec![Value::Integer(300)] };
    assert_eq!(row.get::<i64>(0), Some(300));
    assert_eq!(row.get::<u16>(0), Some(300));
    assert_eq!(row.get::<u8>(0), None);
    assert_eq!(row.get::<i8>(0), None);
    let negative = RowResult { values: vec![Value::Integer(-1)] };
    assert_eq!(negative.get::<u64>(0), None);
    assert_eq!(negative.get::<i32>(0), Some(-1));
}

#[test]
fn integers_convert_to_bool() {
    let row = RowResult {
        values: vec![Value::Integer(0), Value::Integer(2), Value::Real(1)],
    };
    assert_eq!(row.get::<bool>(0), Some(false));
    assert_eq!(row.get::<bool>(1), Some(true));
    assert_eq!(row.get::<bool>(2), None);
}

#[test]
fn text_and_blobs_convert_both_ways() {
    let row = RowResult {
        values: vec![
            Value::Text(String::from("hi")),
            Value::Blob(vec![0x68, 0x69]),
            Value::Blob(vec![0xff]),
        ],
    };
    assert_eq!(row.get::<String>(0), Some(String::from("hi")));
    assert_eq!(row.get::<String>(1), Some(String::from("hi")));
    assert_eq!(row.get::<String>(2), None);
    assert_eq!(row.get::<Vec<u8>>(0), Some(vec![0x68, 0x69]));
    assert_eq!(row.get::<Vec<u8>>(1), Some(vec![0x68, 0x69]));
    assert_eq!(row.get::<Vec<u8>>(2), Some(vec![0xff]));
}

#[test]
fn reals_keep_their_bits() {
    let row = RowResult { values: vec![Value::Real(2.5f64.to_bits())] };
    let real = row.get::<Real64>(0).unwrap();
    assert_eq!(f64::from_bits(real.bits), 2.5);
}

#[test]
fn out_of_range_index_is_none() {
    let row = RowResult { values: vec![Value::Integer(1)] };
    assert_eq!(row.get::<i64>(1), None);
}

#[test]
fn rows_look_up_by_column_name() {
    let result = QueryResult {
        columns: vec![String::from("id"), String::from("name")],
        rows: vec![
            RowResult {
                values: vec![Value::Integer(7), Value::Text(String::from("alice"))],
            },
            RowResult { values: vec![Value::Integer(8)] },
        ],
    };
    let rows = result.rows();
    assert_eq!(rows.len(), 2);
    assert_eq!(rows[0].get::<i64>("id"), Some(7));
    assert_eq!(rows[0].get::<String>("name"), Some(String::from("alice")));
    assert_eq!(rows[0].get::<i64>("missing"), None);
    assert_eq!(rows[1].get::<i64>("id"), Some(8));
    assert_eq!(rows[1].get::<String>("name"), None);
}

#[test]
fn duplicate_column_names_use_the_first() {
    let result = QueryResult {
        columns: vec![String::from("x"), String::from("x")],
        rows: vec![RowResult {
            values: vec![Value::Integer(1), Value::Integer(2)],
        }],
    };
    let rows = result.rows();
    assert_eq!(rows[0].get::<i64>("x"), Some(1));
}
