//! Table names as a query names them: a bare table, or a table qualified by
//! the database (schema) it lives in; and where a blob of such a table is
//! opened.

use vstd::prelude::*;

verus! {

/// A bare identifier, such as a table name.
#[derive(Debug, Clone, Copy)]
pub struct Identifier<'a>(pub &'a str);

/// An identifier qualified by another: `lhs.rhs`, such as `schema.table`.
#[derive(Debug, Clone, Copy)]
pub struct InfixNode<'a> {
    /// The qualifier, such as the schema.
    pub lhs: Identifier<'a>,
    /// The qualified identifier, such as the table.
    pub rhs: Identifier<'a>,
}

/// Something that names a table and, optionally, the database it lives in.
pub trait HasDatabaseAndTableName {
    /// The database the table lives in, if named.
    spec fn spec_database_name(&self) -> Option<Seq<char>>;

    /// The table's name.
    spec fn spec_table_name(&self) -> Seq<char>;

    /// The database the table lives in, if named.
    fn database_name(&self) -> (r: Option<&'static str>)
        ensures
            match r {
                Some(s) => self.spec_database_name() == Some(s@),
                None => self.spec_database_name() is None,
            },
    ;

    /// The table's name.
    fn table_name(&self) -> (r: &'static str)
        ensures
            r@ == self.spec_table_name(),
    ;
}

impl HasDatabaseAndTableName for Identifier<'static> {
    open spec fn spec_database_name(&self) -> Option<Seq<char>> {
        None
    }

    open spec fn spec_table_name(&self) -> Seq<char> {
        self.0@
    }

    fn database_name(&self) -> (r: Option<&'static str>) {
        None
    }

    fn table_name(&self) -> (r: &'static str) {
        self.0
    }
}

impl HasDatabaseAndTableName for InfixNode<'static> {
    open spec fn spec_database_name(&self) -> Option<Seq<char>> {
        Some(self.lhs.0@)
    }

    open spec fn spec_table_name(&self) -> Seq<char> {
        self.rhs.0@
    }

    fn database_name(&self) -> (r: Option<&'static str>) {
        Some(self.lhs.0)
    }

    fn table_name(&self) -> (r: &'static str) {
        self.rhs.0
    }
}

/// Where `sqlite3_blob_open` opens a blob of a column of `table`: the
/// table's database (`main` when the table is not qualified) and the
/// table's name.
pub fn blob_location<T: HasDatabaseAndTableName>(table: &T) -> (r: (&'static str, &'static str))
    ensures
        r.0@ == (match table.spec_database_name() {
            Some(d) => d,
            None => "main"@,
        }),
        r.1@ == table.spec_table_name(),
{
    let db: &'static str = match table.database_name() {
        Some(d) => d,
        None => "main",
    };
    (db, table.table_name())
}

} // verus!
