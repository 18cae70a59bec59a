//! The SQLite backend: its marker type and the storage types of bind values.

use vstd::prelude::*;

verus! {

/// The SQLite backend.
#[derive(Debug, Copy, Clone, Hash, PartialEq, Eq)]
pub struct Sqlite;

/// The SQL type a value is bound as.
#[derive(Debug, Hash, PartialEq, Eq, Clone, Copy)]
pub enum SqliteType {
    /// A BLOB.
    Binary,
    /// A TEXT.
    Text,
    /// A single-precision REAL.
    Float,
    /// A double-precision REAL.
    Double,
    /// A 16-bit INTEGER.
    SmallInt,
    /// A 32-bit INTEGER.
    Integer,
    /// A 64-bit INTEGER.
    Long,
}

impl SqliteType {
    /// The name of the type, as its `Debug` output writes it.
    pub open spec fn spec_name(self) -> Seq<char> {
        match self {
            SqliteType::Binary => "Binary"@,
            SqliteType::Text => "Text"@,
            SqliteType::Float => "Float"@,
            SqliteType::Double => "Double"@,
            SqliteType::SmallInt => "SmallInt"@,
            SqliteType::Integer => "Integer"@,
            SqliteType::Long => "Long"@,
        }
    }

    /// The name of the type, as its `Debug` output writes it.
    pub fn name(self) -> (r: &'static str)
        ensures
            r@ == self.spec_name(),
    {
        match self {
            SqliteType::Binary => "Binary",
            SqliteType::Text => "Text",
            SqliteType::Float => "Float",
            SqliteType::Double => "Double",
            SqliteType::SmallInt => "SmallInt",
            SqliteType::Integer => "Integer",
            SqliteType::Long => "Long",
        }
    }
}

/// SQLite's `ON CONFLICT` clause support.
#[derive(Debug, Copy, Clone)]
pub struct SqliteOnConflictClaues;

/// SQLite's support for inserting several rows in one statement.
#[derive(Debug, Copy, Clone)]
pub struct SqliteBatchInsert;

} // verus!
