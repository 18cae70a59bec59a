//! A database serialized by `sqlite3_serialize`.

use crate::error::{DatabaseErrorKind, Error};
use vstd::prelude::*;

verus! {

enum State {
    Owned(Vec<u8>),
    Empty,
    AllocationFailed,
    Unaddressable,
}

/// The bytes of a serialized database; or none, for an empty database; or
/// the record that SQLite could not allocate them, or reported a size no
/// slice on this platform can have.
pub struct SerializedDatabase {
    state: State,
}

/// The byte count of a serialization SQLite reports as `len`: a count that
/// does not fit an `isize` (so no slice can have it) or is negative is an
/// integer conversion error.
pub fn serialized_len(len: i64) -> (r: Result<usize, Error>)
    ensures
        0 <= len <= isize::MAX <==> r is Ok,
        r matches Ok(n) ==> n == len,
        r matches Err(e) ==> e == Error::IntegerConversion,
{
    if len < 0 || len > isize::MAX as i64 {
        Err(Error::IntegerConversion)
    } else {
        Ok(len as usize)
    }
}

/// How the result of `sqlite3_serialize` is taken.
#[derive(Debug, Clone, Copy, PartialEq, Eq)]
pub enum SerializeOutcome {
    /// Read this many bytes from the returned buffer.
    Read(usize),
    /// No buffer and a size of 0: the serialization of an empty database.
    Empty,
    /// No buffer for a database that has bytes: SQLite could not allocate one.
    AllocationFailed,
    /// A buffer whose reported size no slice can have.
    Unaddressable,
}

/// How to take what `sqlite3_serialize` returned: whether it returned a
/// buffer, and the size it reported.
pub fn serialize_outcome(has_buffer: bool, size: i64) -> (r: SerializeOutcome)
    ensures
        !has_buffer && size == 0 ==> r == SerializeOutcome::Empty,
        !has_buffer && size != 0 ==> r == SerializeOutcome::AllocationFailed,
        has_buffer && 0 <= size <= isize::MAX ==> r == SerializeOutcome::Read(size as usize),
        has_buffer && !(0 <= size <= isize::MAX) ==> r == SerializeOutcome::Unaddressable,
{
    if !has_buffer {
        if size == 0 {
            SerializeOutcome::Empty
        } else {
            SerializeOutcome::AllocationFailed
        }
    } else {
        match serialized_len(size) {
            Ok(n) => SerializeOutcome::Read(n),
            Err(_) => SerializeOutcome::Unaddressable,
        }
    }
}

impl SerializedDatabase {
    /// Whether SQLite failed to allocate the serialization.
    pub closed spec fn allocation_has_failed(self) -> bool {
        self.state is AllocationFailed
    }

    /// Whether SQLite reported a size no slice can have.
    pub closed spec fn is_unaddressable(self) -> bool {
        self.state is Unaddressable
    }

    /// The bytes of the serialization (none when it failed or is empty).
    pub closed spec fn bytes(self) -> Seq<u8> {
        match self.state {
            State::Owned(v) => v@,
            _ => Seq::empty(),
        }
    }

    /// A serialization holding `data`.
    pub fn new(data: Vec<u8>) -> (r: Self)
        ensures
            !r.allocation_has_failed(),
            !r.is_unaddressable(),
            r.bytes() == data@,
    {
        SerializedDatabase { state: State::Owned(data) }
    }

    /// The serialization of an empty database.
    pub fn empty() -> (r: Self)
        ensures
            !r.allocation_has_failed(),
            !r.is_unaddressable(),
            r.bytes() == Seq::<u8>::empty(),
    {
        SerializedDatabase { state: State::Empty }
    }

    /// The record that SQLite could not allocate the serialization.
    pub fn allocation_failed() -> (r: Self)
        ensures
            r.allocation_has_failed(),
            !r.is_unaddressable(),
    {
        SerializedDatabase { state: State::AllocationFailed }
    }

    /// The record that SQLite reported a size no slice can have.
    pub fn unaddressable() -> (r: Self)
        ensures
            !r.allocation_has_failed(),
            r.is_unaddressable(),
    {
        SerializedDatabase { state: State::Unaddressable }
    }

    /// The bytes; an "out of memory" error when SQLite could not allocate
    /// them, and an integer conversion error when their size cannot be
    /// addressed.
    pub fn try_as_slice(&self) -> (r: Result<&[u8], Error>)
        ensures
            !self.allocation_has_failed() && !self.is_unaddressable() <==> r is Ok,
            r matches Ok(s) ==> s@ == self.bytes(),
            self.allocation_has_failed() ==> (r matches Err(Error::DatabaseError(k, m)) && k
                == DatabaseErrorKind::Unknown && m@ == "out of memory"@),
            self.is_unaddressable() ==> r == Err::<&[u8], Error>(Error::IntegerConversion),
    {
        match &self.state {
            State::Owned(v) => Ok(v.as_slice()),
            State::Empty => {
                let e: &[u8] = &[];
                assert(e@ =~= Seq::<u8>::empty());
                Ok(e)
            },
            State::AllocationFailed => Err(
                Error::DatabaseError(DatabaseErrorKind::Unknown, String::from_str("out of memory")),
            ),
            State::Unaddressable => Err(Error::IntegerConversion),
        }
    }

    /// The bytes; only for a serialization that holds them.
    pub fn expect_slice(&self) -> (r: &[u8])
        requires
            !self.allocation_has_failed(),
            !self.is_unaddressable(),
        ensures
            r@ == self.bytes(),
    {
        match self.try_as_slice() {
            Ok(s) => s,
            Err(_) => {
                assert(false);
                &[]
            },
        }
    }

    /// The bytes; only for a serialization that holds them.
    pub fn as_slice(&self) -> (r: &[u8])
        requires
            !self.allocation_has_failed(),
            !self.is_unaddressable(),
        ensures
            r@ == self.bytes(),
    {
        self.expect_slice()
    }
}

} // verus!
