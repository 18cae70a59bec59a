//! A value serialized to bytes with its SQL type, and the `sqlite3_bind_*`
//! call that binds it. Numbers are held in the platform's byte order; the
//! caller decodes the bytes this module selects.

use crate::backend::SqliteType;
use vstd::prelude::*;

verus! {

/// A value as bytes, with the SQL type they hold; `None` is SQL `NULL`.
#[derive(Debug)]
pub struct SerializedValue {
    /// The SQL type of the bytes.
    pub ty: SqliteType,
    /// The bytes, or `None` for `NULL`.
    pub data: Option<Vec<u8>>,
}

/// The `sqlite3_bind_*` call for a serialized value, with the bytes it reads.
#[derive(Debug, PartialEq, Eq)]
pub enum SerializedBind<'v> {
    /// `sqlite3_bind_null`.
    Null,
    /// `sqlite3_bind_blob` of the bytes.
    Blob(&'v [u8]),
    /// `sqlite3_bind_text` of the bytes.
    Text(&'v [u8]),
    /// `sqlite3_bind_double` of the `f32` in the first 4 bytes.
    Float(&'v [u8]),
    /// `sqlite3_bind_double` of the `f64` in the first 8 bytes.
    Double(&'v [u8]),
    /// `sqlite3_bind_int` of the `i16` in the first 2 bytes.
    SmallInt(&'v [u8]),
    /// `sqlite3_bind_int` of the `i32` in the first 4 bytes.
    Integer(&'v [u8]),
    /// `sqlite3_bind_int64` of the `i64` in the first 8 bytes.
    Long(&'v [u8]),
}

/// The number of bytes a number of the type takes (0 for text and bytes).
pub open spec fn value_width(ty: SqliteType) -> nat {
    match ty {
        SqliteType::Binary | SqliteType::Text => 0,
        SqliteType::SmallInt => 2,
        SqliteType::Float | SqliteType::Integer => 4,
        SqliteType::Double | SqliteType::Long => 8,
    }
}

impl SerializedValue {
    /// A number's bytes hold at least one number of its type.
    pub open spec fn wf(self) -> bool {
        self.data matches Some(d) ==> d@.len() >= value_width(self.ty)
    }

    /// The call that binds the value: `NULL` without bytes; otherwise the
    /// call of the value's type, reading its bytes.
    pub fn bind_call(&self) -> (r: SerializedBind<'_>)
        requires
            self.wf(),
        ensures
            match self.data {
                None => r == SerializedBind::Null,
                Some(d) => match r {
                    SerializedBind::Blob(b) => self.ty == SqliteType::Binary && b@ == d@,
                    SerializedBind::Text(b) => self.ty == SqliteType::Text && b@ == d@,
                    SerializedBind::Float(b) => self.ty == SqliteType::Float && b@ == d@,
                    SerializedBind::Double(b) => self.ty == SqliteType::Double && b@ == d@,
                    SerializedBind::SmallInt(b) => self.ty == SqliteType::SmallInt && b@ == d@,
                    SerializedBind::Integer(b) => self.ty == SqliteType::Integer && b@ == d@,
                    SerializedBind::Long(b) => self.ty == SqliteType::Long && b@ == d@,
                    SerializedBind::Null => false,
                },
            },
    {
        match &self.data {
            None => SerializedBind::Null,
            Some(d) => {
                let b = d.as_slice();
                match self.ty {
                    SqliteType::Binary => SerializedBind::Blob(b),
                    SqliteType::Text => SerializedBind::Text(b),
                    SqliteType::Float => SerializedBind::Float(b),
                    SqliteType::Double => SerializedBind::Double(b),
                    SqliteType::SmallInt => SerializedBind::SmallInt(b),
                    SqliteType::Integer => SerializedBind::Integer(b),
                    SqliteType::Long => SerializedBind::Long(b),
                }
            },
        }
    }
}

} // verus!
