//! SQL functions defined by the application: how many arguments one may
//! take, and the row its arguments are read from.

use crate::error::{DatabaseErrorKind, Error};
use crate::row::OwnedSqliteValue;
use vstd::prelude::*;

verus! {

/// The largest number of arguments SQLite lets a function take.
pub const MAX_FUNCTION_ARGS: usize = 127usize;

/// Checks that a function taking `fields_needed` arguments can be
/// registered: more than 127 fails, with an error that the command cannot
/// be sent.
pub fn check_function_arity(fields_needed: usize) -> (r: Result<(), Error>)
    ensures
        fields_needed <= 127 <==> r is Ok,
        r matches Err(e) ==> e matches Error::DatabaseError(k, m) && k
            == DatabaseErrorKind::UnableToSendCommand && m@
            == "SQLite functions cannot take more than 127 parameters"@,
{
    if fields_needed > MAX_FUNCTION_ARGS {
        return Err(
            Error::DatabaseError(
                DatabaseErrorKind::UnableToSendCommand,
                String::from_str("SQLite functions cannot take more than 127 parameters"),
            ),
        );
    }
    Ok(())
}

/// The arguments of one call of an SQL function, read as a row; `None`
/// stands for SQL `NULL`. Its fields have no names.
pub struct FunctionRow<'a> {
    args: &'a [Option<OwnedSqliteValue>],
}

impl<'a> FunctionRow<'a> {
    /// The arguments.
    pub closed spec fn spec_args(self) -> Seq<Option<OwnedSqliteValue>> {
        self.args@
    }

    /// The row of the arguments `args`.
    pub fn new(args: &'a [Option<OwnedSqliteValue>]) -> (r: Self)
        ensures
            r.spec_args() == args@,
    {
        FunctionRow { args }
    }

    /// The number of arguments.
    pub fn field_count(&self) -> (r: usize)
        ensures
            r == self.spec_args().len(),
    {
        self.args.len()
    }

    /// The index `idx` when there is such an argument.
    pub fn idx(&self, idx: usize) -> (r: Option<usize>)
        ensures
            r == (if idx < self.spec_args().len() {
                Some(idx)
            } else {
                None
            }),
    {
        if idx < self.args.len() {
            Some(idx)
        } else {
            None
        }
    }

    /// Arguments have no names, so no name finds one.
    pub fn idx_by_name(&self, _name: &str) -> (r: Option<usize>)
        ensures
            r is None,
    {
        None
    }

    /// The argument at `idx`: `None` when there is no such argument, and
    /// `Some(None)` when it is SQL `NULL`.
    pub fn get(&self, idx: usize) -> (r: Option<Option<&'a OwnedSqliteValue>>)
        ensures
            idx >= self.spec_args().len() ==> r is None,
            idx < self.spec_args().len() ==> r == Some(
                match self.spec_args()[idx as int] {
                    Some(v) => Some(&v),
                    None => None::<&OwnedSqliteValue>,
                },
            ),
    {
        if idx >= self.args.len() {
            return None;
        }
        match &self.args[idx] {
            Some(v) => Some(Some(v)),
            None => Some(None),
        }
    }
}

} // verus!
