//! The SQLite trace callback (`sqlite3_trace_v2`): the mask of events it
//! receives and the events it reports.

use crate::codes;
use vstd::prelude::*;

verus! {

/// `SQLITE_TRACE_STMT`: a prepared statement begins to run.
pub const TRACE_STMT: u32 = 1u32;

/// `SQLITE_TRACE_PROFILE`: a prepared statement has finished.
pub const TRACE_PROFILE: u32 = 2u32;

/// `SQLITE_TRACE_ROW`: a statement returned a row.
pub const TRACE_ROW: u32 = 4u32;

/// The events a trace mask can select. `SQLITE_TRACE_CLOSE` is not among
/// them: the trace callback is removed before the connection closes.
pub open spec fn known_trace_bits() -> u32 {
    7u32
}

/// Trace event mask selecting which events the callback receives. Combine
/// flags with `union`; `all()` selects every event.
#[derive(Debug, Clone, Copy, PartialEq, Eq, Hash)]
pub struct SqliteTraceFlags {
    bits: u32,
}

impl SqliteTraceFlags {
    /// Statement start (`STMT`): the SQL text of a statement that begins to run.
    pub fn stmt() -> (r: Self)
        ensures
            r.spec_bits() == TRACE_STMT,
    {
        SqliteTraceFlags { bits: codes::sqlite_trace_stmt() }
    }

    /// Statement profile (`PROFILE`): the SQL text and run time of a finished statement.
    pub fn profile() -> (r: Self)
        ensures
            r.spec_bits() == TRACE_PROFILE,
    {
        SqliteTraceFlags { bits: codes::sqlite_trace_profile() }
    }

    /// Row (`ROW`): one event per returned row, without data.
    pub fn row() -> (r: Self)
        ensures
            r.spec_bits() == TRACE_ROW,
    {
        SqliteTraceFlags { bits: codes::sqlite_trace_row() }
    }

    /// The mask as the integer handed to `sqlite3_trace_v2`.
    pub closed spec fn spec_bits(self) -> u32 {
        self.bits
    }

    /// A mask holds only known event bits.
    pub open spec fn wf(self) -> bool {
        self.spec_bits() & !known_trace_bits() == 0
    }

    /// The mask as the integer handed to `sqlite3_trace_v2`.
    pub fn bits(&self) -> (r: u32)
        ensures
            r == self.spec_bits(),
    {
        self.bits
    }

    /// The empty mask.
    pub fn empty() -> (r: Self)
        ensures
            r.spec_bits() == 0,
    {
        SqliteTraceFlags { bits: 0 }
    }

    /// The mask of every event.
    pub fn all() -> (r: Self)
        ensures
            r.spec_bits() == known_trace_bits(),
    {
        SqliteTraceFlags { bits: 7 }
    }

    /// The mask of the known events among `bits`; unknown bits are dropped.
    pub fn from_bits_truncate(bits: u32) -> (r: Self)
        ensures
            r.spec_bits() == bits & known_trace_bits(),
            r.wf(),
    {
        let r = SqliteTraceFlags { bits: bits & 7 };
        assert((bits & 7u32) & !7u32 == 0u32) by (bit_vector);
        r
    }

    /// The mask with the events of both masks.
    pub fn union(self, other: Self) -> (r: Self)
        ensures
            r.spec_bits() == self.spec_bits() | other.spec_bits(),
    {
        SqliteTraceFlags { bits: self.bits | other.bits }
    }

    /// Whether every event of `other` is in this mask.
    pub fn contains(&self, other: Self) -> (r: bool)
        ensures
            r == (self.spec_bits() & other.spec_bits() == other.spec_bits()),
    {
        self.bits & other.bits == other.bits
    }

    /// Whether the mask selects no event.
    pub fn is_empty(&self) -> (r: bool)
        ensures
            r == (self.spec_bits() == 0),
    {
        self.bits == 0
    }
}

/// A union of masks contains each of them.
pub proof fn lemma_union_contains_both(a: SqliteTraceFlags, b: SqliteTraceFlags)
    ensures
        (a.spec_bits() | b.spec_bits()) & a.spec_bits() == a.spec_bits(),
        (a.spec_bits() | b.spec_bits()) & b.spec_bits() == b.spec_bits(),
{
    let x = a.spec_bits();
    let y = b.spec_bits();
    assert((x | y) & x == x) by (bit_vector);
    assert((x | y) & y == y) by (bit_vector);
}

/// The mask of all events contains each single event, and the three events
/// are distinct bits.
pub proof fn lemma_all_contains_each_event()
    ensures
        known_trace_bits() & TRACE_STMT == TRACE_STMT,
        known_trace_bits() & TRACE_PROFILE == TRACE_PROFILE,
        known_trace_bits() & TRACE_ROW == TRACE_ROW,
        TRACE_STMT & TRACE_PROFILE == 0,
        TRACE_STMT & TRACE_ROW == 0,
        TRACE_PROFILE & TRACE_ROW == 0,
{
    assert(7u32 & 1u32 == 1u32) by (bit_vector);
    assert(7u32 & 2u32 == 2u32) by (bit_vector);
    assert(7u32 & 4u32 == 4u32) by (bit_vector);
    assert(1u32 & 2u32 == 0u32) by (bit_vector);
    assert(1u32 & 4u32 == 0u32) by (bit_vector);
    assert(2u32 & 4u32 == 0u32) by (bit_vector);
}

/// An event delivered to the trace callback.
#[derive(Debug, Clone, Copy)]
#[non_exhaustive]
pub enum SqliteTraceEvent<'a> {
    /// A prepared statement is beginning to run.
    #[non_exhaustive]
    Statement {
        /// The unexpanded SQL text, with parameter placeholders.
        sql: &'a str,
        /// Whether the statement is read-only (`sqlite3_stmt_readonly`).
        readonly: bool,
    },
    /// A prepared statement has finished.
    #[non_exhaustive]
    Profile {
        /// The SQL text of the statement (`sqlite3_sql`).
        sql: &'a str,
        /// Time taken, in nanoseconds.
        duration_ns: u64,
        /// Whether the statement is read-only.
        readonly: bool,
    },
    /// A row has been returned from a query.
    Row,
}

impl<'a> SqliteTraceEvent<'a> {
    /// Builds the event for one call of the trace callback. `event_code` is
    /// the event SQLite reports; `sql` is the SQL text it delivers (`None` for
    /// a null pointer); `duration_ns` the run time it delivers for a profile
    /// event (`None` for a null pointer); `readonly` whether the statement is
    /// read-only. `None` means the callback is not called: the statement
    /// event came without SQL text, or the event is not one a mask can select.
    /// A profile event without SQL text reports the empty text, and one
    /// without a run time reports 0.
    pub fn from_ffi(
        event_code: u32,
        sql: Option<&'a str>,
        duration_ns: Option<i64>,
        readonly: bool,
    ) -> (r: Option<Self>)
        ensures
            event_code == TRACE_STMT ==> r == (match sql {
                Some(s) => Some(SqliteTraceEvent::Statement { sql: s, readonly }),
                None => None::<SqliteTraceEvent<'a>>,
            }),
            event_code == TRACE_PROFILE ==> (r matches Some(SqliteTraceEvent::Profile { sql: s, duration_ns: d, readonly: ro })
                && s@ == (match sql { Some(t) => t@, None => Seq::<char>::empty() })
                && d == (match duration_ns { Some(n) => n as u64, None => 0u64 })
                && ro == readonly),
            event_code == TRACE_ROW ==> r == Some(SqliteTraceEvent::<'a>::Row),
            event_code != TRACE_STMT && event_code != TRACE_PROFILE && event_code != TRACE_ROW ==> r is None,
    {
        if event_code == codes::sqlite_trace_stmt() {
            match sql {
                Some(s) => Some(SqliteTraceEvent::Statement { sql: s, readonly }),
                None => None,
            }
        } else if event_code == codes::sqlite_trace_profile() {
            let text: &'a str = match sql {
                Some(s) => s,
                None => "",
            };
            proof {
                reveal_strlit("");
            }
            let d: u64 = match duration_ns {
                Some(n) => n as u64,
                None => 0,
            };
            Some(SqliteTraceEvent::Profile { sql: text, duration_ns: d, readonly })
        } else if event_code == codes::sqlite_trace_row() {
            Some(SqliteTraceEvent::Row)
        } else {
            None
        }
    }
}

} // verus!
