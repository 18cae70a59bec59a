//! How a statement's binds are handed to SQLite: which `sqlite3_bind_*` call
//! each value takes, which binds must be reset when the statement is done,
//! and the flags a statement is prepared with.

use crate::backend::SqliteType;
use crate::bind_collector::SqliteBindValueRef;
use crate::codes;
use crate::error::Error;
use vstd::prelude::*;

verus! {

/// One `sqlite3_bind_*` call for a bind value.
#[derive(Debug, PartialEq, Eq)]
pub enum BindCall<'v> {
    /// `sqlite3_bind_null`.
    Null,
    /// `sqlite3_bind_blob` of the bytes.
    Blob(&'v [u8]),
    /// `sqlite3_bind_text` of the text.
    Text(&'v str),
    /// `sqlite3_bind_double` of the `f64` with these bits.
    Double(u64),
    /// `sqlite3_bind_int`.
    Int(i32),
    /// `sqlite3_bind_int64`.
    Int64(i64),
}

/// The call that binds `value` as SQL type `tpe`, with whether the statement
/// keeps the value's own buffer until it is done; `None` when the value does
/// not match the type. `NULL` binds as any type; bytes bind as `Binary`,
/// text as `Text`, doubles as `Float` or `Double`, 32-bit integers as
/// `SmallInt` or `Integer`, 64-bit integers as `Long`.
pub open spec fn spec_bind_call<'v>(tpe: SqliteType, value: SqliteBindValueRef<'v>) -> Option<(BindCall<'v>, bool)> {
    match (tpe, value) {
        (_, SqliteBindValueRef::Null) => Some((BindCall::Null, false)),
        (SqliteType::Binary, SqliteBindValueRef::BorrowedBinary(b)) => Some((BindCall::Blob(b), false)),
        (SqliteType::Text, SqliteBindValueRef::BorrowedString(s)) => Some((BindCall::Text(s), false)),
        (SqliteType::Float, SqliteBindValueRef::F64(d)) => Some((BindCall::Double(d), false)),
        (SqliteType::Double, SqliteBindValueRef::F64(d)) => Some((BindCall::Double(d), false)),
        (SqliteType::SmallInt, SqliteBindValueRef::I32(i)) => Some((BindCall::Int(i), false)),
        (SqliteType::Integer, SqliteBindValueRef::I32(i)) => Some((BindCall::Int(i), false)),
        (SqliteType::Long, SqliteBindValueRef::I64(i)) => Some((BindCall::Int64(i), false)),
        _ => None,
    }
}

/// A value binds exactly as the SQL type whose storage class it holds, and
/// then with the call of that class on the value itself: `NULL` binds as any
/// type; a double binds as `Float` or `Double` with `sqlite3_bind_double` of
/// the same bits; a 32-bit integer as `SmallInt` or `Integer` with
/// `sqlite3_bind_int`; a 64-bit integer as `Long` with `sqlite3_bind_int64`;
/// borrowed bytes as `Binary` and borrowed text as `Text`. Bound as any other
/// type, the value is a mismatch. (Owned text and bytes are stated by
/// `bind_call` itself.)
pub proof fn lemma_values_bind_as_their_storage_class<'v>(tpe: SqliteType, value: SqliteBindValueRef<'v>)
    ensures
        value is Null ==> spec_bind_call(tpe, value) == Some((BindCall::<'v>::Null, false)),
        value matches SqliteBindValueRef::F64(d) ==> spec_bind_call(tpe, value) == (if tpe
            == SqliteType::Float || tpe == SqliteType::Double {
            Some((BindCall::<'v>::Double(d), false))
        } else {
            None
        }),
        value matches SqliteBindValueRef::I32(i) ==> spec_bind_call(tpe, value) == (if tpe
            == SqliteType::SmallInt || tpe == SqliteType::Integer {
            Some((BindCall::<'v>::Int(i), false))
        } else {
            None
        }),
        value matches SqliteBindValueRef::I64(i) ==> spec_bind_call(tpe, value) == (if tpe
            == SqliteType::Long {
            Some((BindCall::<'v>::Int64(i), false))
        } else {
            None
        }),
        value matches SqliteBindValueRef::BorrowedBinary(b) ==> spec_bind_call(tpe, value) == (if tpe
            == SqliteType::Binary {
            Some((BindCall::<'v>::Blob(b), false))
        } else {
            None
        }),
        value matches SqliteBindValueRef::BorrowedString(t) ==> spec_bind_call(tpe, value) == (if tpe
            == SqliteType::Text {
            Some((BindCall::<'v>::Text(t), false))
        } else {
            None
        }),
{
}

/// The bind call for `value` as SQL type `tpe`, and whether the statement
/// keeps the value's own buffer (owned text and bytes) until it is done. A
/// value that does not match the type fails with "Type mismatch: Expected
/// <type>, got <value type>".
pub fn bind_call<'v>(tpe: SqliteType, value: &'v SqliteBindValueRef<'_>) -> (r: Result<
    (BindCall<'v>, bool),
    Error,
>)
    ensures
        match *value {
            SqliteBindValueRef::Binary(b) => if tpe == SqliteType::Binary {
                r matches Ok((BindCall::Blob(x), true)) && x@ == b@
            } else {
                r is Err
            },
            SqliteBindValueRef::String(s) => if tpe == SqliteType::Text {
                r matches Ok((BindCall::Text(x), true)) && x@ == s@
            } else {
                r is Err
            },
            _ => match spec_bind_call(tpe, *value) {
                Some(c) => r == Ok::<(BindCall<'v>, bool), Error>(c),
                None => r is Err,
            },
        },
        r matches Err(e) ==> e matches Error::SerializationError(m) && m@ == "Type mismatch: Expected "@
            + tpe.spec_name() + ", got "@ + value.spec_type_name(),
{
    match (tpe, value) {
        (_, SqliteBindValueRef::Null) => Ok((BindCall::Null, false)),
        (SqliteType::Binary, SqliteBindValueRef::BorrowedBinary(b)) => Ok((BindCall::Blob(b), false)),
        (SqliteType::Binary, SqliteBindValueRef::Binary(b)) => Ok((BindCall::Blob(b.as_slice()), true)),
        (SqliteType::Text, SqliteBindValueRef::BorrowedString(s)) => Ok((BindCall::Text(s), false)),
        (SqliteType::Text, SqliteBindValueRef::String(s)) => Ok((BindCall::Text(s.as_str()), true)),
        (SqliteType::Float, SqliteBindValueRef::F64(d)) => Ok((BindCall::Double(*d), false)),
        (SqliteType::Double, SqliteBindValueRef::F64(d)) => Ok((BindCall::Double(*d), false)),
        (SqliteType::SmallInt, SqliteBindValueRef::I32(i)) => Ok((BindCall::Int(*i), false)),
        (SqliteType::Integer, SqliteBindValueRef::I32(i)) => Ok((BindCall::Int(*i), false)),
        (SqliteType::Long, SqliteBindValueRef::I64(i)) => Ok((BindCall::Int64(*i), false)),
        _ => {
            let mut m = String::from_str("Type mismatch: Expected ");
            m.append(tpe.name());
            m.append(", got ");
            m.append(value.sql_type_name());
            Err(Error::SerializationError(m))
        },
    }
}

/// Whether a bind holds text or bytes, borrowed or owned: SQLite reads
/// such a bind's buffer until the bind is reset.
pub open spec fn holds_buffer(v: SqliteBindValueRef) -> bool {
    v is BorrowedString || v is String || v is BorrowedBinary || v is Binary
}

/// The binds to reset when the statement is done, for binds that all bound
/// successfully: the placeholder index (from 1) of each bind that holds a
/// buffer, with whether the buffer is the bind's own.
pub open spec fn release_plan<'a>(binds: Seq<(SqliteBindValueRef<'a>, SqliteType)>) -> Seq<(i32, bool)>
    decreases binds.len(),
{
    if binds.len() == 0 {
        Seq::empty()
    } else {
        let prev = release_plan(binds.drop_last());
        let v = binds.last().0;
        if holds_buffer(v) {
            prev.push((binds.len() as i32, v is String || v is Binary))
        } else {
            prev
        }
    }
}

/// The number of binds that hold a buffer.
pub open spec fn buffer_count<'a>(binds: Seq<(SqliteBindValueRef<'a>, SqliteType)>) -> nat
    decreases binds.len(),
{
    if binds.len() == 0 {
        0
    } else {
        buffer_count(binds.drop_last()) + if holds_buffer(binds.last().0) {
            1nat
        } else {
            0nat
        }
    }
}

/// The binds of a statement to reset when it is done, with whether each
/// buffer is the bind's own; one entry per bind that holds a buffer.
pub fn binds_to_release(binds: &Vec<(SqliteBindValueRef<'_>, SqliteType)>) -> (r: Vec<(i32, bool)>)
    requires
        binds@.len() <= i32::MAX,
    ensures
        r@ == release_plan(binds@),
        r@.len() == buffer_count(binds@),
{
    let n = binds.len();
    let mut r: Vec<(i32, bool)> = Vec::new();
    let mut i: usize = 0;
    while i < n
        invariant
            n == binds@.len(),
            n <= i32::MAX,
            i <= n,
            r@ == release_plan(binds@.take(i as int)),
            r@.len() == buffer_count(binds@.take(i as int)),
        decreases n - i,
    {
        let ghost prefix = binds@.take((i + 1) as int);
        assert(prefix.drop_last() =~= binds@.take(i as int));
        let (v, _) = &binds[i];
        let idx = (i + 1) as i32;
        match v {
            SqliteBindValueRef::BorrowedString(_) | SqliteBindValueRef::BorrowedBinary(_) => {
                r.push((idx, false));
            },
            SqliteBindValueRef::String(_) | SqliteBindValueRef::Binary(_) => {
                r.push((idx, true));
            },
            _ => {},
        }
        i = i + 1;
    }
    assert(binds@.take(n as int) =~= binds@);
    r
}

/// Every entry of the release plan names a placeholder of the statement, and
/// the entries come in increasing placeholder order.
pub proof fn lemma_release_plan_indexes_are_placeholders<'a>(binds: Seq<(SqliteBindValueRef<'a>, SqliteType)>)
    requires
        binds.len() <= i32::MAX,
    ensures
        forall|k: int|
            0 <= k < release_plan(binds).len() ==> 1 <= #[trigger] release_plan(binds)[k].0 <= binds.len(),
        forall|k: int, l: int|
            0 <= k < l < release_plan(binds).len() ==> #[trigger] release_plan(binds)[k].0
                < #[trigger] release_plan(binds)[l].0,
    decreases binds.len(),
{
    if binds.len() > 0 {
        let prev = release_plan(binds.drop_last());
        lemma_release_plan_indexes_are_placeholders(binds.drop_last());
        let p = release_plan(binds);
        let n = binds.len() as i32;
        assert(n as int == binds.len());
        if holds_buffer(binds.last().0) {
            assert(p == prev.push((n, binds.last().0 is String || binds.last().0 is Binary)));
            assert forall|k: int| 0 <= k < p.len() implies 1 <= #[trigger] p[k].0 <= binds.len() by {
                if k < prev.len() {
                    assert(p[k] == prev[k]);
                }
            }
            assert forall|k: int, l: int| 0 <= k < l < p.len() implies #[trigger] p[k].0 < #[trigger] p[l].0 by {
                assert(p[k] == prev[k]);
                if l < prev.len() {
                    assert(p[l] == prev[l]);
                }
            }
        } else {
            assert(p == prev);
        }
    }
}

/// The `prepFlags` of `sqlite3_prepare_v3`: persistent for a statement that
/// is kept in the statement cache.
pub fn prepare_flags(is_cached: bool) -> (r: u32)
    ensures
        r == (if is_cached {
            1u32
        } else {
            0u32
        }),
{
    if is_cached {
        codes::sqlite_prepare_persistent()
    } else {
        0
    }
}

} // verus!
