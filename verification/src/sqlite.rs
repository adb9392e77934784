//! Typed access to SQLite query results.
//!
//! A query result is a list of column names and a list of rows; every cell
//! is a [`Value`].  [`RowResult`] looks cells up by position, [`Row`] by
//! column name.  The [`FromValue`] trait says which cells convert to which
//! Rust types: integers convert to the integer types and `bool` when they
//! fit, text and blobs convert to strings and byte vectors (blobs must be
//! UTF-8 to become a string), and reals are carried as their IEEE 754 bit
//! patterns.

use vstd::prelude::*;
use vstd::slice::slice_to_vec;
use vstd::string::StringExecFns;
use vstd::string::StringSliceAdditionalSpecFns;
use vstd::utf8::decode_utf8;
use vstd::utf8::encode_utf8;
use vstd::utf8::valid_utf8;

use crate::pg3::Real64;

verus! {

/// One SQLite cell.
#[derive(PartialEq, Eq, Debug)]
pub enum Value {
    /// An INTEGER cell.
    Integer(i64),
    /// A REAL cell, as the IEEE 754 bit pattern.
    Real(u64),
    /// A TEXT cell.
    Text(String),
    /// A BLOB cell.
    Blob(Vec<u8>),
    /// A NULL cell.
    Null,
}

/// A type a SQLite cell can convert to.
pub trait FromValue: Sized + DeepView {
    /// Which cells convert to this type, and to which value (stated over
    /// the type's deep view).
    spec fn converted(v: Value) -> Option<Self::V>;

    /// Convert a cell, succeeding exactly on the cells
    /// [`FromValue::converted`] accepts.
    fn from_value(v: &Value) -> (r: Option<Self>)
        ensures
            match Self::converted(*v) {
                Some(x) => r matches Some(got) && got.deep_view() == x,
                None => r is None,
            },
    ;
}

impl FromValue for bool {
    open spec fn converted(v: Value) -> Option<bool> {
        match v {
            Value::Integer(i) => Some(i != 0),
            _ => None,
        }
    }

    fn from_value(v: &Value) -> (r: Option<bool>) {
        match v {
            Value::Integer(i) => Some(*i != 0),
            _ => None,
        }
    }
}

impl FromValue for i64 {
    open spec fn converted(v: Value) -> Option<i64> {
        match v {
            Value::Integer(i) => Some(i),
            _ => None,
        }
    }

    fn from_value(v: &Value) -> (r: Option<i64>) {
        match v {
            Value::Integer(i) => Some(*i),
            _ => None,
        }
    }
}

impl FromValue for i8 {
    open spec fn converted(v: Value) -> Option<i8> {
        match v {
            Value::Integer(i) => if i8::MIN <= i <= i8::MAX {
                Some(i as i8)
            } else {
                None
            },
            _ => None,
        }
    }

    fn from_value(v: &Value) -> (r: Option<i8>) {
        match v {
            Value::Integer(i) => if i8::MIN as i64 <= *i && *i <= i8::MAX as i64 {
                Some(*i as i8)
            } else {
                None
            },
            _ => None,
        }
    }
}

impl FromValue for i16 {
    open spec fn converted(v: Value) -> Option<i16> {
        match v {
            Value::Integer(i) => if i16::MIN <= i <= i16::MAX {
                Some(i as i16)
            } else {
                None
            },
            _ => None,
        }
    }

    fn from_value(v: &Value) -> (r: Option<i16>) {
        match v {
            Value::Integer(i) => if i16::MIN as i64 <= *i && *i <= i16::MAX as i64 {
                Some(*i as i16)
            } else {
                None
            },
            _ => None,
        }
    }
}

impl FromValue for i32 {
    open spec fn converted(v: Value) -> Option<i32> {
        match v {
            Value::Integer(i) => if i32::MIN <= i <= i32::MAX {
                Some(i as i32)
            } else {
                None
            },
            _ => None,
        }
    }

    fn from_value(v: &Value) -> (r: Option<i32>) {
        match v {
            Value::Integer(i) => if i32::MIN as i64 <= *i && *i <= i32::MAX as i64 {
                Some(*i as i32)
            } else {
                None
            },
            _ => None,
        }
    }
}

impl FromValue for u8 {
    open spec fn converted(v: Value) -> Option<u8> {
        match v {
            Value::Integer(i) => if 0 <= i <= u8::MAX {
                Some(i as u8)
            } else {
                None
            },
            _ => None,
        }
    }

    fn from_value(v: &Value) -> (r: Option<u8>) {
        match v {
            Value::Integer(i) => if 0 <= *i && *i <= u8::MAX as i64 {
                Some(*i as u8)
            } else {
                None
            },
            _ => None,
        }
    }
}

impl FromValue for u16 {
    open spec fn converted(v: Value) -> Option<u16> {
        match v {
            Value::Integer(i) => if 0 <= i <= u16::MAX {
                Some(i as u16)
            } else {
                None
            },
            _ => None,
        }
    }

    fn from_value(v: &Value) -> (r: Option<u16>) {
        match v {
            Value::Integer(i) => if 0 <= *i && *i <= u16::MAX as i64 {
                Some(*i as u16)
            } else {
                None
            },
            _ => None,
        }
    }
}

impl FromValue for u32 {
    open spec fn converted(v: Value) -> Option<u32> {
        match v {
            Value::Integer(i) => if 0 <= i <= u32::MAX {
                Some(i as u32)
            } else {
                None
            },
            _ => None,
        }
    }

    fn from_value(v: &Value) -> (r: Option<u32>) {
        match v {
            Value::Integer(i) => if 0 <= *i && *i <= u32::MAX as i64 {
                Some(*i as u32)
            } else {
                None
            },
            _ => None,
        }
    }
}

impl FromValue for u64 {
    open spec fn converted(v: Value) -> Option<u64> {
        match v {
            Value::Integer(i) => if 0 <= i {
                Some(i as u64)
            } else {
                None
            },
            _ => None,
        }
    }

    fn from_value(v: &Value) -> (r: Option<u64>) {
        match v {
            Value::Integer(i) => if 0 <= *i {
                Some(*i as u64)
            } else {
                None
            },
            _ => None,
        }
    }
}

impl FromValue for Real64 {
    open spec fn converted(v: Value) -> Option<Real64> {
        match v {
            Value::Real(bits) => Some(Real64 { bits }),
            _ => None,
        }
    }

    fn from_value(v: &Value) -> (r: Option<Real64>) {
        match v {
            Value::Real(bits) => Some(Real64 { bits: *bits }),
            _ => None,
        }
    }
}

impl FromValue for String {
    open spec fn converted(v: Value) -> Option<Seq<char>> {
        match v {
            Value::Text(s) => Some(s@),
            Value::Blob(b) => if valid_utf8(b@) {
                Some(decode_utf8(b@))
            } else {
                None
            },
            _ => None,
        }
    }

    fn from_value(v: &Value) -> (r: Option<String>) {
        match v {
            Value::Text(s) => Some(s.clone()),
            Value::Blob(b) => {
                let copy = slice_to_vec(b.as_slice());
                match crate::http::string_from_utf8(copy) {
                    Ok(s) => Some(s),
                    Err(_) => None,
                }
            },
            _ => None,
        }
    }
}

impl FromValue for Vec<u8> {
    open spec fn converted(v: Value) -> Option<Seq<u8>> {
        match v {
            Value::Blob(b) => Some(b@),
            Value::Text(s) => Some(encode_utf8(s@)),
            _ => None,
        }
    }

    fn from_value(v: &Value) -> (r: Option<Vec<u8>>) {
        match v {
            Value::Blob(b) => {
                let out = slice_to_vec(b.as_slice());
                proof {
                    assert(out.deep_view() =~= b@);
                }
                Some(out)
            },
            Value::Text(s) => {
                let out = slice_to_vec(s.as_str().as_bytes());
                proof {
                    assert(out.deep_view() =~= encode_utf8(s@));
                }
                Some(out)
            },
            _ => None,
        }
    }
}

impl FromValue for usize {
    open spec fn converted(v: Value) -> Option<usize> {
        match v {
            Value::Integer(i) => if 0 <= i <= usize::MAX {
                Some(i as usize)
            } else {
                None
            },
            _ => None,
        }
    }

    fn from_value(v: &Value) -> (r: Option<usize>) {
        match v {
            Value::Integer(i) => if 0 <= *i && *i as u64 <= usize::MAX as u64 {
                Some(*i as usize)
            } else {
                None
            },
            _ => None,
        }
    }
}

impl FromValue for isize {
    open spec fn converted(v: Value) -> Option<isize> {
        match v {
            Value::Integer(i) => if isize::MIN <= i <= isize::MAX {
                Some(i as isize)
            } else {
                None
            },
            _ => None,
        }
    }

    fn from_value(v: &Value) -> (r: Option<isize>) {
        match v {
            Value::Integer(i) => if isize::MIN as i64 <= *i && *i <= isize::MAX as i64 {
                Some(*i as isize)
            } else {
                None
            },
            _ => None,
        }
    }
}

/// One row of a query result, addressed by position.
#[derive(PartialEq, Eq, Debug)]
pub struct RowResult {
    /// The cells of the row, one per column.
    pub values: Vec<Value>,
}

impl RowResult {
    /// Convert the cell at `index` to the asked-for type: `None` when the
    /// index is out of range or the cell does not convert.
    pub fn get<T: FromValue>(&self, index: usize) -> (r: Option<T>)
        ensures
            index >= self.values@.len() ==> r is None,
            index < self.values@.len() ==> match T::converted(self.values@[index as int]) {
                Some(x) => r matches Some(got) && got.deep_view() == x,
                None => r is None,
            },
    {
        if index < self.values.len() {
            T::from_value(&self.values[index])
        } else {
            None
        }
    }
}

/// The result of one query: the column names, and the rows in result
/// order.
#[derive(PartialEq, Eq, Debug)]
pub struct QueryResult {
    /// The column names, in select order.
    pub columns: Vec<String>,
    /// The rows, in result order.
    pub rows: Vec<RowResult>,
}

/// One row of a query result, addressed by column name.
pub struct Row<'a> {
    columns: &'a Vec<String>,
    result: &'a RowResult,
}

/// The position of a column name in the column list: the first index whose
/// name matches, if any.
pub open spec fn column_index(columns: Seq<String>, name: Seq<char>) -> Option<int>
    decreases columns.len(),
{
    if columns.len() == 0 {
        None
    } else if columns.first()@ == name {
        Some(0)
    } else {
        match column_index(columns.drop_first(), name) {
            Some(i) => Some(i + 1),
            None => None,
        }
    }
}

impl QueryResult {
    /// The rows of this result wrapped for lookup by column name, in
    /// result order.
    pub fn rows(&self) -> (r: Vec<Row<'_>>)
        ensures
            r@.len() == self.rows@.len(),
            forall|i: int|
                0 <= i < self.rows@.len() ==> (#[trigger] r@[i]).spec_columns() == self.columns@
                    && r@[i].spec_result() == self.rows@[i],
    {
        let mut out: Vec<Row<'_>> = Vec::new();
        let mut k: usize = 0;
        while k < self.rows.len()
            invariant
                k <= self.rows@.len(),
                out@.len() == k,
                forall|i: int|
                    0 <= i < k ==> (#[trigger] out@[i]).spec_columns() == self.columns@
                        && out@[i].spec_result() == self.rows@[i],
            decreases self.rows@.len() - k,
        {
            out.push(Row { columns: &self.columns, result: &self.rows[k] });
            k = k + 1;
        }
        out
    }
}

impl<'a> Row<'a> {
    /// The column names this row is addressed through.
    pub closed spec fn spec_columns(&self) -> Seq<String> {
        self.columns@
    }

    /// The underlying row.
    pub closed spec fn spec_result(&self) -> RowResult {
        *self.result
    }

    /// Convert the cell under this column name to the asked-for type:
    /// `None` when no column has the name, the row is shorter than the
    /// column list, or the cell does not convert.
    pub fn get<T: FromValue>(&self, column: &str) -> (r: Option<T>)
        ensures
            match column_index(self.spec_columns(), column@) {
                None => r is None,
                Some(i) => {
                    &&& i >= self.spec_result().values@.len() ==> r is None
                    &&& i < self.spec_result().values@.len() ==> match T::converted(
                        self.spec_result().values@[i],
                    ) {
                        Some(x) => r matches Some(got) && got.deep_view() == x,
                        None => r is None,
                    }
                },
            },
    {
        let wanted = String::from_str(column);
        let mut k: usize = 0;
        proof {
            assert(self.columns@.skip(0) =~= self.columns@);
        }
        while k < self.columns.len()
            invariant
                wanted@ == column@,
                k <= self.columns@.len(),
                column_index(self.columns@.skip(k as int), column@) matches Some(i)
                    ==> column_index(self.columns@, column@) == Some(i + k),
                forall|i: int| 0 <= i < k ==> (#[trigger] self.columns@[i])@ != column@,
            decreases self.columns@.len() - k,
        {
            proof {
                assert(self.columns@.skip(k as int).first() == self.columns@[k as int]);
                assert(self.columns@.skip(k as int).drop_first() =~= self.columns@.skip(k + 1));
            }
            if self.columns[k].eq(&wanted) {
                proof {
                    assert(column_index(self.columns@.skip(k as int), column@) == Some(0int));
                    assert(column_index(self.columns@, column@) == Some(k as int));
                }
                return self.result.get(k);
            }
            k = k + 1;
        }
        proof {
            assert(self.columns@.skip(self.columns@.len() as int).len() == 0);
            assert(column_index(self.columns@, column@) is None) by {
                lemma_column_index_in_range(self.columns@, column@);
                match column_index(self.columns@, column@) {
                    Some(i) => {
                        assert((self.columns@[i])@ == column@);
                    },
                    None => {},
                }
            }
        }
        None
    }
}

/// A found column index is in range and names a matching column.
proof fn lemma_column_index_in_range(columns: Seq<String>, name: Seq<char>)
    ensures
        column_index(columns, name) matches Some(i) ==> 0 <= i < columns.len() && columns[i]@
            == name,
    decreases columns.len(),
{
    if columns.len() > 0 {
        lemma_column_index_in_range(columns.drop_first(), name);
    }
}

} // verus!
