//! Bind values and the collection of a statement's binds: what each value
//! is, the owned copy a collection can be moved as, and how a value is bound
//! to a statement or returned from an SQL function.

use crate::backend::SqliteType;
use crate::error::Error;
use vstd::prelude::*;
use vstd::utf8::encode_utf8;

verus! {

/// A value to bind, borrowed from the query or owned. A REAL is held as the
/// bit pattern of its `f64` (`f64::to_bits`).
#[derive(Debug)]
pub enum SqliteBindValueRef<'a> {
    /// Text borrowed from the query.
    BorrowedString(&'a str),
    /// Owned text.
    String(String),
    /// Bytes borrowed from the query.
    BorrowedBinary(&'a [u8]),
    /// Owned bytes.
    Binary(Vec<u8>),
    /// A 32-bit integer.
    I32(i32),
    /// A 64-bit integer.
    I64(i64),
    /// A double, as the bits of its `f64`.
    F64(u64),
    /// SQL `NULL`.
    Null,
}

/// A bind value as plain data: whether it was borrowed does not show.
pub enum BindValueView {
    /// Text.
    Text(Seq<char>),
    /// Bytes.
    Binary(Seq<u8>),
    /// A 32-bit integer.
    I32(i32),
    /// A 64-bit integer.
    I64(i64),
    /// A double, as the bits of its `f64`.
    F64(u64),
    /// SQL `NULL`.
    Null,
}

impl<'a> SqliteBindValueRef<'a> {
    /// The value as plain data.
    pub open spec fn spec_view(self) -> BindValueView {
        match self {
            SqliteBindValueRef::BorrowedString(s) => BindValueView::Text(s@),
            SqliteBindValueRef::String(s) => BindValueView::Text(s@),
            SqliteBindValueRef::BorrowedBinary(b) => BindValueView::Binary(b@),
            SqliteBindValueRef::Binary(b) => BindValueView::Binary(b@),
            SqliteBindValueRef::I32(i) => BindValueView::I32(i),
            SqliteBindValueRef::I64(i) => BindValueView::I64(i),
            SqliteBindValueRef::F64(d) => BindValueView::F64(d),
            SqliteBindValueRef::Null => BindValueView::Null,
        }
    }

    /// The SQL type name of the value, as its `Display` output writes it.
    pub open spec fn spec_type_name(self) -> Seq<char> {
        match self {
            SqliteBindValueRef::BorrowedString(_) | SqliteBindValueRef::String(_) => "Text"@,
            SqliteBindValueRef::BorrowedBinary(_) | SqliteBindValueRef::Binary(_) => "Binary"@,
            SqliteBindValueRef::I32(_) | SqliteBindValueRef::I64(_) => "Integer"@,
            SqliteBindValueRef::F64(_) => "Float"@,
            SqliteBindValueRef::Null => "Null"@,
        }
    }

    /// The SQL type name of the value: `Text`, `Binary`, `Integer`, `Float`
    /// or `Null`.
    pub fn sql_type_name(&self) -> (r: &'static str)
        ensures
            r@ == self.spec_type_name(),
    {
        match self {
            SqliteBindValueRef::BorrowedString(_) | SqliteBindValueRef::String(_) => "Text",
            SqliteBindValueRef::BorrowedBinary(_) | SqliteBindValueRef::Binary(_) => "Binary",
            SqliteBindValueRef::I32(_) | SqliteBindValueRef::I64(_) => "Integer",
            SqliteBindValueRef::F64(_) => "Float",
            SqliteBindValueRef::Null => "Null",
        }
    }

    /// How the value is returned from an SQL function
    /// (`sqlite3_result_*`); text and bytes longer than `i32::MAX` are an
    /// integer conversion error.
    pub fn result_of(&self) -> (r: Result<ResultCall<'_>, Error>)
        ensures
            match self.spec_view() {
                BindValueView::Text(t) => if encode_utf8(t).len() <= i32::MAX {
                    r matches Ok(ResultCall::Text(x, n)) && x@ == t && n == encode_utf8(t).len()
                } else {
                    r == Err::<ResultCall<'_>, Error>(Error::IntegerConversion)
                },
                BindValueView::Binary(b) => if b.len() <= i32::MAX {
                    r matches Ok(ResultCall::Blob(x, n)) && x@ == b && n == b.len()
                } else {
                    r == Err::<ResultCall<'_>, Error>(Error::IntegerConversion)
                },
                BindValueView::I32(i) => r == Ok::<ResultCall<'_>, Error>(ResultCall::Int(i)),
                BindValueView::I64(i) => r == Ok::<ResultCall<'_>, Error>(ResultCall::Int64(i)),
                BindValueView::F64(d) => r == Ok::<ResultCall<'_>, Error>(ResultCall::Double(d)),
                BindValueView::Null => r == Ok::<ResultCall<'_>, Error>(ResultCall::Null),
            },
    {
        match self {
            SqliteBindValueRef::BorrowedString(s) => {
                let n = s.as_bytes().len();
                if n > 0x7fff_ffffusize {
                    Err(Error::IntegerConversion)
                } else {
                    Ok(ResultCall::Text(s, n as i32))
                }
            },
            SqliteBindValueRef::String(s) => {
                let t = s.as_str();
                let n = t.as_bytes().len();
                if n > 0x7fff_ffffusize {
                    Err(Error::IntegerConversion)
                } else {
                    Ok(ResultCall::Text(t, n as i32))
                }
            },
            SqliteBindValueRef::BorrowedBinary(b) => {
                if b.len() > 0x7fff_ffffusize {
                    Err(Error::IntegerConversion)
                } else {
                    Ok(ResultCall::Blob(b, b.len() as i32))
                }
            },
            SqliteBindValueRef::Binary(b) => {
                if b.len() > 0x7fff_ffffusize {
                    Err(Error::IntegerConversion)
                } else {
                    Ok(ResultCall::Blob(b.as_slice(), b.len() as i32))
                }
            },
            SqliteBindValueRef::I32(i) => Ok(ResultCall::Int(*i)),
            SqliteBindValueRef::I64(i) => Ok(ResultCall::Int64(*i)),
            SqliteBindValueRef::F64(d) => Ok(ResultCall::Double(*d)),
            SqliteBindValueRef::Null => Ok(ResultCall::Null),
        }
    }
}

/// One `sqlite3_result_*` call: text or bytes with their byte count, an
/// integer, a double (as the bits of its `f64`) or `NULL`.
#[derive(Debug, PartialEq, Eq)]
pub enum ResultCall<'v> {
    /// `sqlite3_result_text` of the text and its byte count.
    Text(&'v str, i32),
    /// `sqlite3_result_blob` of the bytes and their count.
    Blob(&'v [u8], i32),
    /// `sqlite3_result_int`.
    Int(i32),
    /// `sqlite3_result_int64`.
    Int64(i64),
    /// `sqlite3_result_double` of the `f64` with these bits.
    Double(u64),
    /// `sqlite3_result_null`.
    Null,
}

/// A value to bind, as a `ToSql` implementation writes it.
#[derive(Debug)]
pub struct SqliteBindValue<'a> {
    /// The value.
    pub inner: SqliteBindValueRef<'a>,
}

impl<'a> SqliteBindValue<'a> {
    /// A 32-bit integer.
    pub fn from_i32(i: i32) -> (r: Self)
        ensures
            r.inner == SqliteBindValueRef::<'a>::I32(i),
    {
        SqliteBindValue { inner: SqliteBindValueRef::I32(i) }
    }

    /// A 64-bit integer.
    pub fn from_i64(i: i64) -> (r: Self)
        ensures
            r.inner == SqliteBindValueRef::<'a>::I64(i),
    {
        SqliteBindValue { inner: SqliteBindValueRef::I64(i) }
    }

    /// A double, given as the bits of its `f64` (`f64::to_bits`).
    pub fn from_f64_bits(bits: u64) -> (r: Self)
        ensures
            r.inner == SqliteBindValueRef::<'a>::F64(bits),
    {
        SqliteBindValue { inner: SqliteBindValueRef::F64(bits) }
    }

    /// Text borrowed from the caller.
    pub fn from_str(s: &'a str) -> (r: Self)
        ensures
            r.inner == SqliteBindValueRef::<'a>::BorrowedString(s),
    {
        SqliteBindValue { inner: SqliteBindValueRef::BorrowedString(s) }
    }

    /// Owned text.
    pub fn from_string(s: String) -> (r: Self)
        ensures
            r.inner == SqliteBindValueRef::<'a>::String(s),
    {
        SqliteBindValue { inner: SqliteBindValueRef::String(s) }
    }

    /// Bytes borrowed from the caller.
    pub fn from_bytes(b: &'a [u8]) -> (r: Self)
        ensures
            r.inner == SqliteBindValueRef::<'a>::BorrowedBinary(b),
    {
        SqliteBindValue { inner: SqliteBindValueRef::BorrowedBinary(b) }
    }

    /// Owned bytes.
    pub fn from_vec(b: Vec<u8>) -> (r: Self)
        ensures
            r.inner == SqliteBindValueRef::<'a>::Binary(b),
    {
        SqliteBindValue { inner: SqliteBindValueRef::Binary(b) }
    }

    /// SQL `NULL`.
    pub fn null() -> (r: Self)
        ensures
            r.inner == SqliteBindValueRef::<'a>::Null,
    {
        SqliteBindValue { inner: SqliteBindValueRef::Null }
    }

    /// The value of an optional value: the value itself, or `NULL`.
    pub fn from_option(o: Option<SqliteBindValue<'a>>) -> (r: Self)
        ensures
            match o {
                Some(v) => r == v,
                None => r.inner == SqliteBindValueRef::<'a>::Null,
            },
    {
        match o {
            Some(v) => v,
            None => SqliteBindValue { inner: SqliteBindValueRef::Null },
        }
    }
}

/// An owned copy of a bind value, which a collection can be moved as.
#[derive(Debug)]
pub enum OwnedSqliteBindValue {
    /// Text.
    String(String),
    /// Bytes.
    Binary(Vec<u8>),
    /// A 32-bit integer.
    I32(i32),
    /// A 64-bit integer.
    I64(i64),
    /// A double, as the bits of its `f64`.
    F64(u64),
    /// SQL `NULL`.
    Null,
}

impl OwnedSqliteBindValue {
    /// The value as plain data.
    pub open spec fn spec_view(self) -> BindValueView {
        match self {
            OwnedSqliteBindValue::String(s) => BindValueView::Text(s@),
            OwnedSqliteBindValue::Binary(b) => BindValueView::Binary(b@),
            OwnedSqliteBindValue::I32(i) => BindValueView::I32(i),
            OwnedSqliteBindValue::I64(i) => BindValueView::I64(i),
            OwnedSqliteBindValue::F64(d) => BindValueView::F64(d),
            OwnedSqliteBindValue::Null => BindValueView::Null,
        }
    }

    /// An owned copy of a bind value.
    pub fn from_ref(value: &SqliteBindValueRef<'_>) -> (r: Self)
        ensures
            r.spec_view() == value.spec_view(),
    {
        match value {
            SqliteBindValueRef::String(s) => OwnedSqliteBindValue::String(s.clone()),
            SqliteBindValueRef::BorrowedString(s) => OwnedSqliteBindValue::String(String::from_str(s)),
            SqliteBindValueRef::Binary(b) => OwnedSqliteBindValue::Binary(
                vstd::slice::slice_to_vec(b.as_slice()),
            ),
            SqliteBindValueRef::BorrowedBinary(b) => OwnedSqliteBindValue::Binary(
                vstd::slice::slice_to_vec(b),
            ),
            SqliteBindValueRef::I32(v) => OwnedSqliteBindValue::I32(*v),
            SqliteBindValueRef::I64(v) => OwnedSqliteBindValue::I64(*v),
            SqliteBindValueRef::F64(v) => OwnedSqliteBindValue::F64(*v),
            SqliteBindValueRef::Null => OwnedSqliteBindValue::Null,
        }
    }

    /// A bind value that owns a copy of this one.
    pub fn to_ref<'a>(&self) -> (r: SqliteBindValueRef<'a>)
        ensures
            r.spec_view() == self.spec_view(),
    {
        match self {
            OwnedSqliteBindValue::String(s) => SqliteBindValueRef::String(s.clone()),
            OwnedSqliteBindValue::Binary(b) => SqliteBindValueRef::Binary(
                vstd::slice::slice_to_vec(b.as_slice()),
            ),
            OwnedSqliteBindValue::I32(v) => SqliteBindValueRef::I32(*v),
            OwnedSqliteBindValue::I64(v) => SqliteBindValueRef::I64(*v),
            OwnedSqliteBindValue::F64(v) => SqliteBindValueRef::F64(*v),
            OwnedSqliteBindValue::Null => SqliteBindValueRef::Null,
        }
    }
}

/// The binds of a statement, in the order of its placeholders, each with
/// the SQL type it is bound as.
#[derive(Debug)]
pub struct SqliteBindCollector<'a> {
    /// The binds, in placeholder order.
    pub binds: Vec<(SqliteBindValueRef<'a>, SqliteType)>,
}

/// An owned copy of a statement's binds.
#[derive(Debug)]
pub struct SqliteBindCollectorData {
    binds: Vec<(OwnedSqliteBindValue, SqliteType)>,
}

/// Binds as plain data.
pub open spec fn ref_binds_view<'a>(binds: Seq<(SqliteBindValueRef<'a>, SqliteType)>) -> Seq<
    (BindValueView, SqliteType),
> {
    binds.map_values(|b: (SqliteBindValueRef<'a>, SqliteType)| (b.0.spec_view(), b.1))
}

/// Owned binds as plain data.
pub open spec fn owned_binds_view(binds: Seq<(OwnedSqliteBindValue, SqliteType)>) -> Seq<
    (BindValueView, SqliteType),
> {
    binds.map_values(|b: (OwnedSqliteBindValue, SqliteType)| (b.0.spec_view(), b.1))
}

impl<'a> SqliteBindCollector<'a> {
    /// The binds as plain data.
    pub open spec fn spec_view(self) -> Seq<(BindValueView, SqliteType)> {
        ref_binds_view(self.binds@)
    }

    /// A collection without binds.
    pub fn new() -> (r: Self)
        ensures
            r.spec_view() == Seq::<(BindValueView, SqliteType)>::empty(),
    {
        let r = SqliteBindCollector { binds: Vec::new() };
        assert(r.spec_view() =~= Seq::<(BindValueView, SqliteType)>::empty());
        r
    }

    /// Appends the value a `ToSql` implementation wrote: `NULL` when it
    /// reported a null value, the value otherwise; `metadata` is its SQL type.
    pub fn push_bound_value(&mut self, value: SqliteBindValue<'a>, is_null: bool, metadata: SqliteType)
        ensures
            final(self).spec_view() == old(self).spec_view().push(
                (if is_null {
                    BindValueView::Null
                } else {
                    value.inner.spec_view()
                }, metadata),
            ),
    {
        let v = if is_null {
            SqliteBindValueRef::Null
        } else {
            value.inner
        };
        self.binds.push((v, metadata));
        assert(self.spec_view() =~= old(self).spec_view().push(
            (if is_null {
                BindValueView::Null
            } else {
                value.inner.spec_view()
            }, metadata),
        ));
    }

    /// Appends a `NULL` bound as `metadata`.
    pub fn push_null_value(&mut self, metadata: SqliteType)
        ensures
            final(self).spec_view() == old(self).spec_view().push((BindValueView::Null, metadata)),
    {
        self.binds.push((SqliteBindValueRef::Null, metadata));
        assert(self.spec_view() =~= old(self).spec_view().push((BindValueView::Null, metadata)));
    }

    /// An owned copy of the binds.
    pub fn moveable(&self) -> (r: SqliteBindCollectorData)
        ensures
            r.spec_view() == self.spec_view(),
    {
        let mut binds: Vec<(OwnedSqliteBindValue, SqliteType)> = Vec::new();
        let n = self.binds.len();
        let mut i: usize = 0;
        while i < n
            invariant
                n == self.binds@.len(),
                i <= n,
                owned_binds_view(binds@) =~= ref_binds_view(self.binds@.take(i as int)),
            decreases n - i,
        {
            let (v, t) = &self.binds[i];
            binds.push((OwnedSqliteBindValue::from_ref(v), *t));
            assert(ref_binds_view(self.binds@.take((i + 1) as int)) =~= ref_binds_view(
                self.binds@.take(i as int),
            ).push((v.spec_view(), *t)));
            i = i + 1;
        }
        assert(self.binds@.take(n as int) =~= self.binds@);
        SqliteBindCollectorData { binds }
    }

    /// Appends the binds of `from`, in order, as owned values.
    pub fn append_bind_data(&mut self, from: &SqliteBindCollectorData)
        ensures
            final(self).spec_view() == old(self).spec_view() + from.spec_view(),
    {
        let n = from.binds.len();
        let mut i: usize = 0;
        while i < n
            invariant
                n == from.binds@.len(),
                i <= n,
                ref_binds_view(self.binds@) =~= ref_binds_view(old(self).binds@) + owned_binds_view(
                    from.binds@.take(i as int),
                ),
            decreases n - i,
        {
            let (v, t) = &from.binds[i];
            let copy = v.to_ref();
            let ghost prev = self.binds@;
            let ghost cv = copy;
            self.binds.push((copy, *t));
            assert(self.binds@ =~= prev.push((cv, *t)));
            assert(ref_binds_view(self.binds@) =~= ref_binds_view(prev).push((v.spec_view(), *t)));
            assert(owned_binds_view(from.binds@.take((i + 1) as int)) =~= owned_binds_view(
                from.binds@.take(i as int),
            ).push((v.spec_view(), *t)));
            i = i + 1;
        }
        assert(from.binds@.take(n as int) =~= from.binds@);
    }
}

impl SqliteBindCollectorData {
    /// The binds as plain data.
    pub closed spec fn spec_view(self) -> Seq<(BindValueView, SqliteType)> {
        owned_binds_view(self.binds@)
    }

    /// The binds, in placeholder order.
    pub fn binds(&self) -> (r: &Vec<(OwnedSqliteBindValue, SqliteType)>)
        ensures
            owned_binds_view(r@) == self.spec_view(),
    {
        &self.binds
    }
}

/// Moving a collection keeps its binds: the owned copy `moved` of
/// `original`, appended to a new collection `fresh`, gives a collection
/// `rebuilt` with the same binds, in the same order, as `original`.
pub proof fn lemma_moved_binds_are_the_same<'a, 'b>(
    original: SqliteBindCollector<'a>,
    moved: SqliteBindCollectorData,
    fresh: SqliteBindCollector<'b>,
    rebuilt: SqliteBindCollector<'b>,
)
    requires
        moved.spec_view() == original.spec_view(),
        fresh.spec_view() == Seq::<(BindValueView, SqliteType)>::empty(),
        rebuilt.spec_view() == fresh.spec_view() + moved.spec_view(),
    ensures
        rebuilt.spec_view() == original.spec_view(),
{
    assert(rebuilt.spec_view() =~= original.spec_view());
}

} // verus!
