//! Rows that own their values: the values of one result row, copied out of
//! the statement, with the names of their columns.

use crate::codes;
use vstd::prelude::*;

verus! {

/// A value copied out of SQLite. A REAL is held as the bit pattern of its
/// `f64` (`f64::to_bits`).
#[derive(Debug, Clone, PartialEq, Eq)]
pub enum OwnedSqliteValue {
    /// An INTEGER.
    Integer(i64),
    /// A REAL, as the bits of its `f64`.
    Real(u64),
    /// A TEXT.
    Text(String),
    /// A BLOB.
    Blob(Vec<u8>),
}

/// The storage class of a column value, which says how it is copied out.
#[derive(Debug, Clone, Copy, PartialEq, Eq)]
pub enum ValueKind {
    /// Copied with `sqlite3_column_int64`.
    Integer,
    /// Copied with `sqlite3_column_double`.
    Real,
    /// Copied with `sqlite3_column_text`.
    Text,
    /// Copied with `sqlite3_column_blob`.
    Blob,
    /// SQL `NULL`: nothing to copy.
    Null,
}

/// The storage class `sqlite3_column_type` reports as `code`; a code that
/// names no storage class is `None`.
pub fn value_kind(code: i32) -> (r: Option<ValueKind>)
    ensures
        r == (if code == 1 {
            Some(ValueKind::Integer)
        } else if code == 2 {
            Some(ValueKind::Real)
        } else if code == 3 {
            Some(ValueKind::Text)
        } else if code == 4 {
            Some(ValueKind::Blob)
        } else if code == 5 {
            Some(ValueKind::Null)
        } else {
            None
        }),
{
    if code == codes::sqlite_integer() {
        Some(ValueKind::Integer)
    } else if code == codes::sqlite_float() {
        Some(ValueKind::Real)
    } else if code == codes::sqlite_text() {
        Some(ValueKind::Text)
    } else if code == codes::sqlite_blob() {
        Some(ValueKind::Blob)
    } else if code == codes::sqlite_null() {
        Some(ValueKind::Null)
    } else {
        None
    }
}

/// A result row that owns its values; `None` stands for SQL `NULL`.
pub struct OwnedSqliteRow {
    values: Vec<Option<OwnedSqliteValue>>,
    column_names: Vec<Option<String>>,
}

/// One field of an owned row.
pub struct OwnedSqliteField<'row> {
    row: &'row OwnedSqliteRow,
    col_idx: i32,
}

/// The view of a column name.
pub open spec fn name_view(n: Option<String>) -> Option<Seq<char>> {
    match n {
        Some(s) => Some(s@),
        None => None,
    }
}

/// The index of the first column called `name`, if there is one.
pub open spec fn first_named(names: Seq<Option<String>>, name: Seq<char>) -> Option<int> {
    if exists|i: int| is_first_named(names, name, i) {
        Some(choose|i: int| is_first_named(names, name, i))
    } else {
        None
    }
}

/// Column `i` is the first one called `name`.
pub open spec fn is_first_named(names: Seq<Option<String>>, name: Seq<char>, i: int) -> bool {
    &&& 0 <= i < names.len()
    &&& name_view(names[i]) == Some(name)
    &&& forall|j: int| 0 <= j < i ==> name_view(names[j]) != Some(name)
}

/// Two values are the same value: the same variant with equal contents.
pub open spec fn same_value(a: OwnedSqliteValue, b: OwnedSqliteValue) -> bool {
    match (a, b) {
        (OwnedSqliteValue::Integer(x), OwnedSqliteValue::Integer(y)) => x == y,
        (OwnedSqliteValue::Real(x), OwnedSqliteValue::Real(y)) => x == y,
        (OwnedSqliteValue::Text(x), OwnedSqliteValue::Text(y)) => x@ == y@,
        (OwnedSqliteValue::Blob(x), OwnedSqliteValue::Blob(y)) => x@ == y@,
        _ => false,
    }
}

/// Two optional values are the same: both `NULL`, or the same value.
pub open spec fn same_field(a: Option<OwnedSqliteValue>, b: Option<OwnedSqliteValue>) -> bool {
    match (a, b) {
        (None, None) => true,
        (Some(x), Some(y)) => same_value(x, y),
        _ => false,
    }
}

/// Two rows of values are the same, field by field.
pub open spec fn same_fields(a: Seq<Option<OwnedSqliteValue>>, b: Seq<Option<OwnedSqliteValue>>) -> bool {
    &&& a.len() == b.len()
    &&& forall|i: int| 0 <= i < a.len() ==> #[trigger] same_field(a[i], b[i])
}

impl OwnedSqliteValue {
    /// A copy of the value.
    pub fn duplicate(&self) -> (r: Self)
        ensures
            same_value(r, *self),
    {
        match self {
            OwnedSqliteValue::Integer(i) => OwnedSqliteValue::Integer(*i),
            OwnedSqliteValue::Real(d) => OwnedSqliteValue::Real(*d),
            OwnedSqliteValue::Text(t) => OwnedSqliteValue::Text(t.clone()),
            OwnedSqliteValue::Blob(b) => OwnedSqliteValue::Blob(vstd::slice::slice_to_vec(b.as_slice())),
        }
    }
}

/// Copies of the values of a row, in order, `NULL` staying `NULL`.
pub fn duplicate_values(values: &[Option<OwnedSqliteValue>]) -> (r: Vec<Option<OwnedSqliteValue>>)
    ensures
        same_fields(r@, values@),
{
    let n = values.len();
    let mut out: Vec<Option<OwnedSqliteValue>> = Vec::new();
    let mut i: usize = 0;
    while i < n
        invariant
            n == values@.len(),
            i <= n,
            out@.len() == i,
            forall|j: int| 0 <= j < i ==> #[trigger] same_field(out@[j], values@[j]),
        decreases n - i,
    {
        let copy = match &values[i] {
            Some(v) => Some(v.duplicate()),
            None => None,
        };
        out.push(copy);
        i = i + 1;
    }
    out
}

/// A copy of a list of column names.
pub fn duplicate_names(names: &[Option<String>]) -> (r: Vec<Option<String>>)
    ensures
        r@ == names@,
{
    let n = names.len();
    let mut out: Vec<Option<String>> = Vec::new();
    let mut i: usize = 0;
    while i < n
        invariant
            n == names@.len(),
            i <= n,
            out@ == names@.take(i as int),
        decreases n - i,
    {
        let copy = match &names[i] {
            Some(s) => Some(s.clone()),
            None => None,
        };
        out.push(copy);
        assert(names@.take((i + 1) as int) =~= names@.take(i as int).push(names@[i as int]));
        i = i + 1;
    }
    assert(names@.take(n as int) =~= names@);
    out
}

/// The column names of the rows an iteration copies out: the cached names
/// when there are any, else `names`, which are then cached for the later
/// rows.
pub fn cached_column_names(cache: &mut Option<Vec<Option<String>>>, names: &[Option<String>]) -> (r: Vec<
    Option<String>,
>)
    ensures
        match *old(cache) {
            Some(c) => (*final(cache) matches Some(d) && d@ == c@) && r@ == c@,
            None => (*final(cache) matches Some(d) && d@ == names@) && r@ == names@,
        },
{
    match cache {
        Some(c) => duplicate_names(c.as_slice()),
        None => {
            let fresh = duplicate_names(names);
            let kept = duplicate_names(fresh.as_slice());
            *cache = Some(kept);
            fresh
        },
    }
}

/// An owned copy of a row: copies of its values, with the column names of
/// the cache (filled from `names` when it is empty).
pub fn moveable_row(
    values: &[Option<OwnedSqliteValue>],
    names: &[Option<String>],
    cache: &mut Option<Vec<Option<String>>>,
) -> (r: OwnedSqliteRow)
    ensures
        same_fields(r.spec_values(), values@),
        match *old(cache) {
            Some(c) => (*final(cache) matches Some(d) && d@ == c@) && r.spec_column_names() == c@,
            None => (*final(cache) matches Some(d) && d@ == names@) && r.spec_column_names()
                == names@,
        },
{
    let column_names = cached_column_names(cache, names);
    OwnedSqliteRow::new(duplicate_values(values), column_names)
}

impl OwnedSqliteRow {
    /// The row's values.
    pub closed spec fn spec_values(self) -> Seq<Option<OwnedSqliteValue>> {
        self.values@
    }

    /// The names of the row's columns.
    pub closed spec fn spec_column_names(self) -> Seq<Option<String>> {
        self.column_names@
    }

    /// A row of `values`, whose columns are named by `column_names`.
    pub fn new(values: Vec<Option<OwnedSqliteValue>>, column_names: Vec<Option<String>>) -> (r: Self)
        ensures
            r.spec_values() == values@,
            r.spec_column_names() == column_names@,
    {
        OwnedSqliteRow { values, column_names }
    }

    /// The number of fields of the row.
    pub fn field_count(&self) -> (r: usize)
        ensures
            r == self.spec_values().len(),
    {
        self.values.len()
    }

    /// The index `idx` when the row has such a field.
    pub fn idx(&self, idx: usize) -> (r: Option<usize>)
        ensures
            r == (if idx < self.spec_values().len() {
                Some(idx)
            } else {
                None
            }),
    {
        if idx < self.values.len() {
            Some(idx)
        } else {
            None
        }
    }

    /// The index of the first column called `field_name`.
    pub fn idx_by_name(&self, field_name: &str) -> (r: Option<usize>)
        ensures
            match r {
                Some(i) => first_named(self.spec_column_names(), field_name@) == Some(i as int),
                None => first_named(self.spec_column_names(), field_name@) is None,
            },
    {
        let wanted = String::from_str(field_name);
        let n = self.column_names.len();
        let mut i: usize = 0;
        while i < n
            invariant
                n == self.column_names@.len(),
                i <= n,
                wanted@ == field_name@,
                forall|j: int| 0 <= j < i ==> name_view(self.column_names@[j]) != Some(field_name@),
            decreases n - i,
        {
            match &self.column_names[i] {
                Some(s) => {
                    if *s == wanted {
                        let ghost names = self.column_names@;
                        assert(name_view(names[i as int]) == Some(field_name@));
                        proof {
                            assert(is_first_named(names, field_name@, i as int));
                            let k = choose|k: int| is_first_named(names, field_name@, k);
                            if k < i {
                                assert(name_view(names[k]) != Some(field_name@));
                            }
                            if k > i {
                                assert(name_view(names[i as int]) != Some(field_name@));
                            }
                            assert(k == i);
                        }
                        return Some(i);
                    }
                },
                None => {},
            }
            i = i + 1;
        }
        None
    }

    /// The field at `idx`, when the row has it and its index fits an `i32`.
    pub fn get(&self, idx: usize) -> (r: Option<OwnedSqliteField<'_>>)
        ensures
            r is Some <==> idx < self.spec_values().len() && idx <= i32::MAX,
            r matches Some(f) ==> f.spec_row() == *self && f.spec_index() == idx,
    {
        let i = self.idx(idx)?;
        if i > 0x7fff_ffffusize {
            return None;
        }
        Some(OwnedSqliteField { row: self, col_idx: i as i32 })
    }

    /// The field of the first column called `field_name`, when its index fits
    /// an `i32`. The column names and the values are meant to be equally many;
    /// the field is found by its name alone.
    pub fn get_by_name(&self, field_name: &str) -> (r: Option<OwnedSqliteField<'_>>)
        ensures
            match first_named(self.spec_column_names(), field_name@) {
                Some(i) => if i <= i32::MAX {
                    r matches Some(f) && f.spec_row() == *self && f.spec_index() == i
                } else {
                    r is None
                },
                None => r is None,
            },
    {
        match self.idx_by_name(field_name) {
            Some(i) => {
                if i > 0x7fff_ffffusize {
                    None
                } else {
                    let f = OwnedSqliteField { row: self, col_idx: i as i32 };
                    Some(f)
                }
            },
            None => None,
        }
    }
}

impl<'row> OwnedSqliteField<'row> {
    /// The row the field belongs to.
    pub closed spec fn spec_row(self) -> OwnedSqliteRow {
        *self.row
    }

    /// The index of the field in its row.
    pub closed spec fn spec_index(self) -> int {
        self.col_idx as int
    }

    /// A field always indexes a value of its row.
    pub closed spec fn wf(self) -> bool {
        0 <= self.col_idx < self.row.values@.len()
    }

    /// The name of the field's column, if it has one.
    pub fn field_name(&self) -> (r: Option<&str>)
        ensures
            match r {
                Some(s) => 0 <= self.spec_index() < self.spec_row().spec_column_names().len()
                    && name_view(self.spec_row().spec_column_names()[self.spec_index()]) == Some(s@),
                None => !(0 <= self.spec_index() < self.spec_row().spec_column_names().len())
                    || self.spec_row().spec_column_names()[self.spec_index()] is None,
            },
    {
        if self.col_idx < 0 {
            return None;
        }
        let i = self.col_idx as usize;
        if i >= self.row.column_names.len() {
            return None;
        }
        match &self.row.column_names[i] {
            Some(s) => Some(s.as_str()),
            None => None,
        }
    }

    /// The field's value; `None` for SQL `NULL`.
    pub fn value(&self) -> (r: Option<&'row OwnedSqliteValue>)
        ensures
            0 <= self.spec_index() < self.spec_row().spec_values().len() ==> match self.spec_row().spec_values()[self.spec_index()] {
                Some(v) => r == Some(&v),
                None => r is None,
            },
            !(0 <= self.spec_index() < self.spec_row().spec_values().len()) ==> r is None,
    {
        if self.col_idx < 0 {
            return None;
        }
        let i = self.col_idx as usize;
        if i >= self.row.values.len() {
            return None;
        }
        match &self.row.values[i] {
            Some(v) => Some(v),
            None => None,
        }
    }

    /// Whether the field is SQL `NULL`.
    pub fn is_null(&self) -> (r: bool)
        ensures
            0 <= self.spec_index() < self.spec_row().spec_values().len() ==> r == (
            self.spec_row().spec_values()[self.spec_index()] is None),
    {
        self.value().is_none()
    }
}

} // verus!
