//! The answers of the connection's hook callbacks (commit, progress, busy,
//! collation, WAL) and the integers they become for SQLite.

use crate::codes;
use vstd::prelude::*;
use vstd::string::StringSliceAdditionalSpecFns;
use vstd::utf8::valid_utf8;

verus! {

/// The commit hook's answer.
#[derive(Debug, Clone, Copy, PartialEq, Eq)]
pub enum CommitDecision {
    /// Let the commit proceed.
    Proceed,
    /// Turn the commit into a rollback.
    Rollback,
}

/// The progress handler's answer.
#[derive(Debug, Clone, Copy, PartialEq, Eq)]
pub enum ProgressDecision {
    /// Let the statement continue.
    Continue,
    /// Interrupt the statement.
    Interrupt,
}

/// The busy handler's answer.
#[derive(Debug, Clone, Copy, PartialEq, Eq)]
pub enum BusyDecision {
    /// Try to take the lock again.
    Retry,
    /// Give up; the statement fails with `SQLITE_BUSY`.
    GiveUp,
}

impl CommitDecision {
    /// The value the commit hook returns to SQLite: non-zero turns the commit
    /// into a rollback.
    pub fn to_ffi(self) -> (r: i32)
        ensures
            r == (match self {
                CommitDecision::Proceed => 0i32,
                CommitDecision::Rollback => 1i32,
            }),
    {
        match self {
            CommitDecision::Rollback => 1,
            CommitDecision::Proceed => 0,
        }
    }
}

impl ProgressDecision {
    /// The value the progress handler returns to SQLite: non-zero interrupts.
    pub fn to_ffi(self) -> (r: i32)
        ensures
            r == (match self {
                ProgressDecision::Continue => 0i32,
                ProgressDecision::Interrupt => 1i32,
            }),
    {
        match self {
            ProgressDecision::Interrupt => 1,
            ProgressDecision::Continue => 0,
        }
    }
}

impl BusyDecision {
    /// The value the busy handler returns to SQLite: non-zero retries.
    pub fn to_ffi(self) -> (r: i32)
        ensures
            r == (match self {
                BusyDecision::Retry => 1i32,
                BusyDecision::GiveUp => 0i32,
            }),
    {
        match self {
            BusyDecision::Retry => 1,
            BusyDecision::GiveUp => 0,
        }
    }
}

/// The instruction count handed to `sqlite3_progress_handler` for a
/// handler called every `n` instructions (`n` is not 0): `n`, or `i32::MAX`
/// when `n` does not fit, since a wrapped count would disable the handler.
pub fn progress_interval(n: u32) -> (r: i32)
    requires
        n != 0,
    ensures
        n <= i32::MAX ==> r == n,
        n > i32::MAX ==> r == i32::MAX,
        r > 0,
{
    if n <= 0x7fff_ffffu32 {
        n as i32
    } else {
        i32::MAX
    }
}

/// The page count handed to the WAL hook: SQLite's count, with a negative
/// count (which SQLite never reports) read as 0.
pub fn wal_page_count(n_pages: i32) -> (r: u32)
    ensures
        n_pages >= 0 ==> r == n_pages,
        n_pages < 0 ==> r == 0,
{
    if n_pages >= 0 {
        n_pages as u32
    } else {
        0
    }
}

/// The value the collation callback returns to SQLite for the order of its
/// two strings: negative, zero or positive.
pub fn collation_result(order: core::cmp::Ordering) -> (r: i32)
    ensures
        r == (match order {
            core::cmp::Ordering::Less => -1i32,
            core::cmp::Ordering::Equal => 0i32,
            core::cmp::Ordering::Greater => 1i32,
        }),
{
    match order {
        core::cmp::Ordering::Less => -1,
        core::cmp::Ordering::Equal => 0,
        core::cmp::Ordering::Greater => 1,
    }
}

/// `std::str::from_utf8`: the bytes as a string slice when they are valid
/// UTF-8, and `None` (the `Utf8Error`) when they are not.
#[verifier::external_body]
fn str_from_utf8(bytes: &[u8]) -> (r: Option<&str>)
    ensures
        r is Some <==> valid_utf8(bytes@),
        r matches Some(s) ==> s.spec_bytes() == bytes@,
{
    std::str::from_utf8(bytes).ok()
}

/// The two strings a collation callback compares, read from the bytes
/// SQLite hands over (the collation is registered for UTF-8). The second
/// string is checked first; bytes that are not UTF-8 abort the comparison
/// with a message naming the side.
pub fn collation_operands<'a>(lhs: &'a [u8], rhs: &'a [u8]) -> (r: Result<(&'a str, &'a str), &'static str>)
    ensures
        !valid_utf8(rhs@) ==> (r matches Err(m) && m@ == "Got an invalid UTF-8 string for rhs"@),
        valid_utf8(rhs@) && !valid_utf8(lhs@) ==> (r matches Err(m) && m@
            == "Got an invalid UTF-8 string for lhs"@),
        valid_utf8(rhs@) && valid_utf8(lhs@) ==> (r matches Ok((l, q)) && l.spec_bytes() == lhs@
            && q.spec_bytes() == rhs@),
{
    let r = match str_from_utf8(rhs) {
        Some(r) => r,
        None => return Err("Got an invalid UTF-8 string for rhs"),
    };
    let l = match str_from_utf8(lhs) {
        Some(l) => l,
        None => return Err("Got an invalid UTF-8 string for lhs"),
    };
    Ok((l, r))
}

/// The byte count handed to `sqlite3_result_error` for an error message of
/// `len` bytes: the length, or `i32::MAX` when it does not fit.
pub fn error_message_length(len: usize) -> (r: i32)
    ensures
        len <= i32::MAX ==> r == len,
        len > i32::MAX ==> r == i32::MAX,
{
    if len <= 0x7fff_ffffusize {
        len as i32
    } else {
        i32::MAX
    }
}

/// The text encoding SQLite asks a collation for.
#[derive(Debug, Clone, Copy, PartialEq, Eq)]
#[non_exhaustive]
pub enum SqliteTextRep {
    /// `SQLITE_UTF8`.
    Utf8,
    /// `SQLITE_UTF16BE`.
    Utf16Be,
    /// `SQLITE_UTF16LE`.
    Utf16Le,
    /// Any other encoding code, kept unchanged.
    Other(i32),
}

impl SqliteTextRep {
    /// The encoding for SQLite's `eTextRep` code.
    pub fn from_ffi(text_rep: i32) -> (r: Self)
        ensures
            r == (if text_rep == 1 {
                SqliteTextRep::Utf8
            } else if text_rep == 3 {
                SqliteTextRep::Utf16Be
            } else if text_rep == 2 {
                SqliteTextRep::Utf16Le
            } else {
                SqliteTextRep::Other(text_rep)
            }),
    {
        if text_rep == codes::sqlite_utf8() {
            SqliteTextRep::Utf8
        } else if text_rep == codes::sqlite_utf16be() {
            SqliteTextRep::Utf16Be
        } else if text_rep == codes::sqlite_utf16le() {
            SqliteTextRep::Utf16Le
        } else {
            SqliteTextRep::Other(text_rep)
        }
    }
}

/// What the collation-needed hook is told: the name of the missing
/// collation and the encoding SQLite would use it in.
#[derive(Debug, Clone, Copy)]
#[non_exhaustive]
pub struct CollationNeededContext<'a> {
    /// Name of the collation SQLite needs.
    pub name: &'a str,
    /// Encoding SQLite asks for.
    pub text_rep: SqliteTextRep,
}

impl<'a> CollationNeededContext<'a> {
    /// The context for a missing collation `name` in encoding `text_rep`.
    pub fn new(name: &'a str, text_rep: i32) -> (r: Self)
        ensures
            r.name == name,
            r.text_rep == SqliteTextRep::from_ffi_spec(text_rep),
    {
        CollationNeededContext { name, text_rep: SqliteTextRep::from_ffi(text_rep) }
    }
}

impl SqliteTextRep {
    /// The encoding for SQLite's `eTextRep` code.
    pub open spec fn from_ffi_spec(text_rep: i32) -> SqliteTextRep {
        if text_rep == 1 {
            SqliteTextRep::Utf8
        } else if text_rep == 3 {
            SqliteTextRep::Utf16Be
        } else if text_rep == 2 {
            SqliteTextRep::Utf16Le
        } else {
            SqliteTextRep::Other(text_rep)
        }
    }
}

/// SQLite's encoding codes decode to their own encodings: `SQLITE_UTF8` (1)
/// is UTF-8, `SQLITE_UTF16LE` (2) little-endian UTF-16 and `SQLITE_UTF16BE`
/// (3) big-endian UTF-16; each encoding comes from that code alone, and any
/// other code is kept in `Other`.
pub proof fn lemma_text_rep_codes_are_sqlites(code: i32)
    ensures
        SqliteTextRep::from_ffi_spec(code) == SqliteTextRep::Utf8 <==> code == 1,
        SqliteTextRep::from_ffi_spec(code) == SqliteTextRep::Utf16Le <==> code == 2,
        SqliteTextRep::from_ffi_spec(code) == SqliteTextRep::Utf16Be <==> code == 3,
        (code < 1 || code > 3) ==> SqliteTextRep::from_ffi_spec(code) == SqliteTextRep::Other(code),
{
}

/// Every encoding code is kept: a code that names no encoding comes back
/// unchanged inside `Other`, and the named encodings have distinct codes.
pub proof fn lemma_text_rep_keeps_the_code(a: i32, b: i32)
    requires
        SqliteTextRep::from_ffi_spec(a) == SqliteTextRep::from_ffi_spec(b),
    ensures
        a == b,
{
}

} // verus!
