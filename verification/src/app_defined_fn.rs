//! Application-defined SQL functions: the arguments of a call, read as Rust
//! values, and the result a call returns to SQLite.

use vstd::prelude::*;
use vstd::utf8::encode_utf8;

verus! {

/// One argument of a call, as SQLite reads it: the value of
/// `sqlite3_value_int`, `sqlite3_value_int64` and `sqlite3_value_double`
/// (as the bits of the `f64`), and the text and bytes of
/// `sqlite3_value_text` and `sqlite3_value_blob` (`None` for a null
/// pointer).
#[derive(Debug, Clone)]
pub struct SqliteArgument {
    /// `sqlite3_value_int`.
    pub int: i32,
    /// `sqlite3_value_int64`.
    pub int64: i64,
    /// `sqlite3_value_double`, as the bits of the `f64`.
    pub double_bits: u64,
    /// `sqlite3_value_text`.
    pub text: Option<String>,
    /// `sqlite3_value_blob`.
    pub blob: Option<Vec<u8>>,
}

/// A Rust type an argument can be read as.
pub trait FromSqliteValue: Sized {
    /// Whether `value` can be read as this type.
    spec fn readable(value: SqliteArgument) -> bool;

    /// `r` is what `value` reads as.
    spec fn reads_as(value: SqliteArgument, r: Self) -> bool;

    /// Reads `value` as this type.
    fn from_sqlite_value(value: &SqliteArgument) -> (r: Self)
        requires
            Self::readable(*value),
        ensures
            Self::reads_as(*value, r),
    ;
}

impl FromSqliteValue for i32 {
    open spec fn readable(value: SqliteArgument) -> bool {
        true
    }

    open spec fn reads_as(value: SqliteArgument, r: Self) -> bool {
        r == value.int
    }

    fn from_sqlite_value(value: &SqliteArgument) -> (r: Self) {
        value.int
    }
}

impl FromSqliteValue for i64 {
    open spec fn readable(value: SqliteArgument) -> bool {
        true
    }

    open spec fn reads_as(value: SqliteArgument, r: Self) -> bool {
        r == value.int64
    }

    fn from_sqlite_value(value: &SqliteArgument) -> (r: Self) {
        value.int64
    }
}

impl FromSqliteValue for String {
    /// Text is read from a non-null text pointer only.
    open spec fn readable(value: SqliteArgument) -> bool {
        value.text is Some
    }

    open spec fn reads_as(value: SqliteArgument, r: Self) -> bool {
        value.text matches Some(t) && r@ == t@
    }

    fn from_sqlite_value(value: &SqliteArgument) -> (r: Self) {
        match &value.text {
            Some(t) => t.clone(),
            None => String::new(),
        }
    }
}

impl FromSqliteValue for Vec<u8> {
    /// Bytes are read from a non-null blob pointer only.
    open spec fn readable(value: SqliteArgument) -> bool {
        value.blob is Some
    }

    open spec fn reads_as(value: SqliteArgument, r: Self) -> bool {
        value.blob matches Some(b) && r@ == b@
    }

    fn from_sqlite_value(value: &SqliteArgument) -> (r: Self) {
        match &value.blob {
            Some(b) => vstd::slice::slice_to_vec(b.as_slice()),
            None => Vec::new(),
        }
    }
}

/// Each Rust type reads an argument through its own SQLite accessor: an
/// `i32` is `sqlite3_value_int`, an `i64` is `sqlite3_value_int64` (so a
/// value outside the `i32` range keeps all its bits), a `String` is the text
/// of `sqlite3_value_text` and a `Vec<u8>` the bytes of
/// `sqlite3_value_blob`; and every argument can be read as an integer.
pub proof fn lemma_arguments_read_through_their_accessor(
    value: SqliteArgument,
    a: i32,
    b: i64,
    t: String,
    v: Vec<u8>,
)
    ensures
        <i32 as FromSqliteValue>::readable(value),
        <i64 as FromSqliteValue>::readable(value),
        <i32 as FromSqliteValue>::reads_as(value, a) <==> a == value.int,
        <i64 as FromSqliteValue>::reads_as(value, b) <==> b == value.int64,
        <String as FromSqliteValue>::readable(value) <==> value.text is Some,
        <String as FromSqliteValue>::reads_as(value, t) <==> (value.text matches Some(x) && t@ == x@),
        <Vec<u8> as FromSqliteValue>::readable(value) <==> value.blob is Some,
        <Vec<u8> as FromSqliteValue>::reads_as(value, v) <==> (value.blob matches Some(x) && v@ == x@),
{
}

/// The arguments of one call of an application-defined function.
#[derive(Debug)]
pub struct Context<'a> {
    args: &'a [SqliteArgument],
}

impl<'a> Context<'a> {
    /// The arguments.
    pub closed spec fn spec_args(self) -> Seq<SqliteArgument> {
        self.args@
    }

    /// The context of a call with arguments `args`.
    pub fn new(args: &'a [SqliteArgument]) -> (r: Self)
        ensures
            r.spec_args() == args@,
    {
        Context { args }
    }

    /// The number of arguments.
    pub fn len(&self) -> (r: usize)
        ensures
            r == self.spec_args().len(),
    {
        self.args.len()
    }

    /// Whether the call has no arguments.
    pub fn is_empty(&self) -> (r: bool)
        ensures
            r == (self.spec_args().len() == 0),
    {
        self.args.len() == 0
    }

    /// The argument at `idx`, read as `T`.
    pub fn get<T: FromSqliteValue>(&self, idx: usize) -> (r: T)
        requires
            idx < self.spec_args().len(),
            T::readable(self.spec_args()[idx as int]),
        ensures
            T::reads_as(self.spec_args()[idx as int], r),
    {
        let arg = &self.args[idx];
        T::from_sqlite_value(arg)
    }
}

/// One way a call's result is handed to SQLite (`sqlite3_result_*`).
#[derive(Debug, PartialEq, Eq)]
pub enum SqliteResultCall {
    /// `sqlite3_result_int`.
    Int(i32),
    /// `sqlite3_result_int64`.
    Int64(i64),
    /// `sqlite3_result_text` of owned text and the byte count given for it.
    Text(String, i32),
    /// `sqlite3_result_text` of static text and the byte count given for it.
    StaticText(&'static str, i32),
    /// `sqlite3_result_null`.
    Null,
    /// `sqlite3_result_error_toobig`.
    ErrorTooBig,
    /// `sqlite3_result_error_nomem`.
    ErrorNoMem,
    /// `sqlite3_result_error` of the message.
    Error(String),
}

/// A Rust value a call can return to SQLite.
pub trait IntoSqliteResult: Sized {
    /// `r` is how this value is handed to SQLite.
    spec fn results_in(self, r: SqliteResultCall) -> bool;

    /// How this value is handed to SQLite.
    fn into_sqlite_result(self) -> (r: SqliteResultCall)
        ensures
            self.results_in(r),
    ;
}

/// An error a call can return to SQLite.
pub trait IntoSqliteResultError: Sized {
    /// `r` is how this error is handed to SQLite.
    spec fn errors_as(self, r: SqliteResultCall) -> bool;

    /// How this error is handed to SQLite.
    fn into_sqlite_result_error(self) -> (r: SqliteResultCall)
        ensures
            self.errors_as(r),
    ;
}

/// The byte count given with text: its length in bytes as a C `int`,
/// truncated to 32 bits as the C API's `int` length is.
pub open spec fn text_length(t: Seq<char>) -> i32 {
    encode_utf8(t).len() as i32
}

impl IntoSqliteResult for i32 {
    open spec fn results_in(self, r: SqliteResultCall) -> bool {
        r == SqliteResultCall::Int(self)
    }

    fn into_sqlite_result(self) -> (r: SqliteResultCall) {
        SqliteResultCall::Int(self)
    }
}

impl IntoSqliteResult for i64 {
    open spec fn results_in(self, r: SqliteResultCall) -> bool {
        r == SqliteResultCall::Int64(self)
    }

    fn into_sqlite_result(self) -> (r: SqliteResultCall) {
        SqliteResultCall::Int64(self)
    }
}

impl IntoSqliteResult for String {
    open spec fn results_in(self, r: SqliteResultCall) -> bool {
        r matches SqliteResultCall::Text(t, n) && t@ == self@ && n == text_length(self@)
    }

    fn into_sqlite_result(self) -> (r: SqliteResultCall) {
        let n = self.as_str().as_bytes().len();
        #[verifier::truncate]
        let len = n as i32;
        SqliteResultCall::Text(self, len)
    }
}

impl IntoSqliteResult for &'static str {
    open spec fn results_in(self, r: SqliteResultCall) -> bool {
        r matches SqliteResultCall::StaticText(t, n) && t@ == self@ && n == text_length(self@)
    }

    fn into_sqlite_result(self) -> (r: SqliteResultCall) {
        let n = self.as_bytes().len();
        #[verifier::truncate]
        let len = n as i32;
        SqliteResultCall::StaticText(self, len)
    }
}

impl<T: IntoSqliteResult> IntoSqliteResult for Option<T> {
    open spec fn results_in(self, r: SqliteResultCall) -> bool {
        match self {
            Some(t) => t.results_in(r),
            None => r == SqliteResultCall::Null,
        }
    }

    fn into_sqlite_result(self) -> (r: SqliteResultCall) {
        match self {
            Some(t) => t.into_sqlite_result(),
            None => SqliteResultCall::Null,
        }
    }
}

impl<T: IntoSqliteResult, E: IntoSqliteResultError> IntoSqliteResult for Result<T, E> {
    open spec fn results_in(self, r: SqliteResultCall) -> bool {
        match self {
            Ok(t) => t.results_in(r),
            Err(e) => e.errors_as(r),
        }
    }

    fn into_sqlite_result(self) -> (r: SqliteResultCall) {
        match self {
            Ok(t) => t.into_sqlite_result(),
            Err(e) => e.into_sqlite_result_error(),
        }
    }
}

/// The result is too big to return (`SQLITE_TOOBIG`).
#[derive(Debug, Copy, Clone)]
pub struct TooBig;

/// Memory ran out (`SQLITE_NOMEM`).
#[derive(Debug, Copy, Clone)]
pub struct NoMem;

/// An error with a message.
#[derive(Debug)]
pub struct Text(pub String);

impl IntoSqliteResultError for TooBig {
    open spec fn errors_as(self, r: SqliteResultCall) -> bool {
        r == SqliteResultCall::ErrorTooBig
    }

    fn into_sqlite_result_error(self) -> (r: SqliteResultCall) {
        SqliteResultCall::ErrorTooBig
    }
}

impl IntoSqliteResultError for NoMem {
    open spec fn errors_as(self, r: SqliteResultCall) -> bool {
        r == SqliteResultCall::ErrorNoMem
    }

    fn into_sqlite_result_error(self) -> (r: SqliteResultCall) {
        SqliteResultCall::ErrorNoMem
    }
}

impl IntoSqliteResultError for Text {
    open spec fn errors_as(self, r: SqliteResultCall) -> bool {
        r matches SqliteResultCall::Error(m) && m@ == self.0@
    }

    fn into_sqlite_result_error(self) -> (r: SqliteResultCall) {
        SqliteResultCall::Error(self.0)
    }
}

} // verus!
