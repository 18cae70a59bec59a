//! Per-connection SQLite resource limits (`sqlite3_limit`) and the hardened
//! values recommended for untrusted SQL.

use crate::codes;
use vstd::prelude::*;

verus! {

/// SQLite resource limits that can be configured per connection. Each
/// variant has a `DEFAULT_*_LIMIT` constant (SQLite's documented default)
/// and a `SAFE_*_LIMIT` constant (the hardened value from the "Untrusted SQL
/// Inputs" table of SQLite's security documentation).
#[derive(Debug, Clone, Copy, PartialEq, Eq, Hash)]
#[non_exhaustive]
pub enum SqliteLimit {
    /// Maximum length of any string or BLOB or table row, in bytes.
    Length,
    /// Maximum length of an SQL statement, in bytes.
    SqlLength,
    /// Maximum number of columns in a table definition, result set or index, and in ORDER BY or GROUP BY.
    ColumnCount,
    /// Maximum depth of the parse tree of any expression.
    ExprDepth,
    /// Maximum number of terms in a compound SELECT statement.
    CompoundSelect,
    /// Maximum number of instructions in the virtual machine program of a statement.
    VdbeOp,
    /// Maximum number of arguments on a function.
    FunctionArg,
    /// Maximum number of attached databases.
    Attached,
    /// Maximum length of the pattern argument of LIKE or GLOB.
    LikePatternLength,
    /// Maximum index number of any parameter in an SQL statement.
    VariableNumber,
    /// Maximum recursion depth of triggers.
    TriggerDepth,
    /// Maximum number of auxiliary worker threads one prepared statement may start.
    WorkerThreads,
}

impl SqliteLimit {
    /// SQLite's documented default for [`Length`](Self::Length).
    pub const DEFAULT_LENGTH_LIMIT: i32 = 1_000_000_000i32;
    /// Hardened value for [`Length`](Self::Length).
    pub const SAFE_LENGTH_LIMIT: i32 = 1_000_000i32;
    /// SQLite's documented default for [`SqlLength`](Self::SqlLength).
    pub const DEFAULT_SQL_LENGTH_LIMIT: i32 = 1_000_000_000i32;
    /// Hardened value for [`SqlLength`](Self::SqlLength).
    pub const SAFE_SQL_LENGTH_LIMIT: i32 = 100_000i32;
    /// SQLite's documented default for [`ColumnCount`](Self::ColumnCount).
    pub const DEFAULT_COLUMN_COUNT_LIMIT: i32 = 2_000i32;
    /// Hardened value for [`ColumnCount`](Self::ColumnCount).
    pub const SAFE_COLUMN_COUNT_LIMIT: i32 = 100i32;
    /// SQLite's documented default for [`ExprDepth`](Self::ExprDepth).
    pub const DEFAULT_EXPR_DEPTH_LIMIT: i32 = 1_000i32;
    /// Hardened value for [`ExprDepth`](Self::ExprDepth).
    pub const SAFE_EXPR_DEPTH_LIMIT: i32 = 10i32;
    /// SQLite's documented default for [`CompoundSelect`](Self::CompoundSelect).
    pub const DEFAULT_COMPOUND_SELECT_LIMIT: i32 = 500i32;
    /// Hardened value for [`CompoundSelect`](Self::CompoundSelect).
    pub const SAFE_COMPOUND_SELECT_LIMIT: i32 = 3i32;
    /// SQLite's documented default for [`VdbeOp`](Self::VdbeOp).
    pub const DEFAULT_VDBE_OP_LIMIT: i32 = 250_000_000i32;
    /// Hardened value for [`VdbeOp`](Self::VdbeOp).
    pub const SAFE_VDBE_OP_LIMIT: i32 = 25_000i32;
    /// SQLite's documented default for [`FunctionArg`](Self::FunctionArg).
    pub const DEFAULT_FUNCTION_ARG_LIMIT: i32 = 127i32;
    /// Hardened value for [`FunctionArg`](Self::FunctionArg).
    pub const SAFE_FUNCTION_ARG_LIMIT: i32 = 8i32;
    /// SQLite's documented default for [`Attached`](Self::Attached).
    pub const DEFAULT_ATTACHED_LIMIT: i32 = 10i32;
    /// Hardened value for [`Attached`](Self::Attached).
    pub const SAFE_ATTACHED_LIMIT: i32 = 0i32;
    /// SQLite's documented default for [`LikePatternLength`](Self::LikePatternLength).
    pub const DEFAULT_LIKE_PATTERN_LENGTH_LIMIT: i32 = 50_000i32;
    /// Hardened value for [`LikePatternLength`](Self::LikePatternLength).
    pub const SAFE_LIKE_PATTERN_LENGTH_LIMIT: i32 = 50i32;
    /// SQLite's documented default for [`VariableNumber`](Self::VariableNumber).
    pub const DEFAULT_VARIABLE_NUMBER_LIMIT: i32 = 32_766i32;
    /// Hardened value for [`VariableNumber`](Self::VariableNumber).
    pub const SAFE_VARIABLE_NUMBER_LIMIT: i32 = 10i32;
    /// SQLite's documented default for [`TriggerDepth`](Self::TriggerDepth).
    pub const DEFAULT_TRIGGER_DEPTH_LIMIT: i32 = 1_000i32;
    /// Hardened value for [`TriggerDepth`](Self::TriggerDepth).
    pub const SAFE_TRIGGER_DEPTH_LIMIT: i32 = 10i32;
    /// SQLite's documented default for [`WorkerThreads`](Self::WorkerThreads).
    pub const DEFAULT_WORKER_THREADS_LIMIT: i32 = 0i32;
    /// Hardened value for [`WorkerThreads`](Self::WorkerThreads).
    pub const SAFE_WORKER_THREADS_LIMIT: i32 = 0i32;

    /// The `SQLITE_LIMIT_*` category number of this limit.
    pub open spec fn spec_code(self) -> i32 {
        match self {
            SqliteLimit::Length => 0,
            SqliteLimit::SqlLength => 1,
            SqliteLimit::ColumnCount => 2,
            SqliteLimit::ExprDepth => 3,
            SqliteLimit::CompoundSelect => 4,
            SqliteLimit::VdbeOp => 5,
            SqliteLimit::FunctionArg => 6,
            SqliteLimit::Attached => 7,
            SqliteLimit::LikePatternLength => 8,
            SqliteLimit::VariableNumber => 9,
            SqliteLimit::TriggerDepth => 10,
            SqliteLimit::WorkerThreads => 11,
        }
    }

    /// SQLite's documented default of this limit.
    pub open spec fn spec_default(self) -> i32 {
        match self {
            SqliteLimit::Length => Self::DEFAULT_LENGTH_LIMIT,
            SqliteLimit::SqlLength => Self::DEFAULT_SQL_LENGTH_LIMIT,
            SqliteLimit::ColumnCount => Self::DEFAULT_COLUMN_COUNT_LIMIT,
            SqliteLimit::ExprDepth => Self::DEFAULT_EXPR_DEPTH_LIMIT,
            SqliteLimit::CompoundSelect => Self::DEFAULT_COMPOUND_SELECT_LIMIT,
            SqliteLimit::VdbeOp => Self::DEFAULT_VDBE_OP_LIMIT,
            SqliteLimit::FunctionArg => Self::DEFAULT_FUNCTION_ARG_LIMIT,
            SqliteLimit::Attached => Self::DEFAULT_ATTACHED_LIMIT,
            SqliteLimit::LikePatternLength => Self::DEFAULT_LIKE_PATTERN_LENGTH_LIMIT,
            SqliteLimit::VariableNumber => Self::DEFAULT_VARIABLE_NUMBER_LIMIT,
            SqliteLimit::TriggerDepth => Self::DEFAULT_TRIGGER_DEPTH_LIMIT,
            SqliteLimit::WorkerThreads => Self::DEFAULT_WORKER_THREADS_LIMIT,
        }
    }

    /// The hardened value of this limit.
    pub open spec fn spec_safe(self) -> i32 {
        match self {
            SqliteLimit::Length => Self::SAFE_LENGTH_LIMIT,
            SqliteLimit::SqlLength => Self::SAFE_SQL_LENGTH_LIMIT,
            SqliteLimit::ColumnCount => Self::SAFE_COLUMN_COUNT_LIMIT,
            SqliteLimit::ExprDepth => Self::SAFE_EXPR_DEPTH_LIMIT,
            SqliteLimit::CompoundSelect => Self::SAFE_COMPOUND_SELECT_LIMIT,
            SqliteLimit::VdbeOp => Self::SAFE_VDBE_OP_LIMIT,
            SqliteLimit::FunctionArg => Self::SAFE_FUNCTION_ARG_LIMIT,
            SqliteLimit::Attached => Self::SAFE_ATTACHED_LIMIT,
            SqliteLimit::LikePatternLength => Self::SAFE_LIKE_PATTERN_LENGTH_LIMIT,
            SqliteLimit::VariableNumber => Self::SAFE_VARIABLE_NUMBER_LIMIT,
            SqliteLimit::TriggerDepth => Self::SAFE_TRIGGER_DEPTH_LIMIT,
            SqliteLimit::WorkerThreads => Self::SAFE_WORKER_THREADS_LIMIT,
        }
    }

    /// Converts the limit to its `SQLITE_LIMIT_*` category number.
    pub fn to_ffi(self) -> (r: i32)
        ensures
            r == self.spec_code(),
    {
        match self {
            SqliteLimit::Length => codes::sqlite_limit_length(),
            SqliteLimit::SqlLength => codes::sqlite_limit_sql_length(),
            SqliteLimit::ColumnCount => codes::sqlite_limit_column(),
            SqliteLimit::ExprDepth => codes::sqlite_limit_expr_depth(),
            SqliteLimit::CompoundSelect => codes::sqlite_limit_compound_select(),
            SqliteLimit::VdbeOp => codes::sqlite_limit_vdbe_op(),
            SqliteLimit::FunctionArg => codes::sqlite_limit_function_arg(),
            SqliteLimit::Attached => codes::sqlite_limit_attached(),
            SqliteLimit::LikePatternLength => codes::sqlite_limit_like_pattern_length(),
            SqliteLimit::VariableNumber => codes::sqlite_limit_variable_number(),
            SqliteLimit::TriggerDepth => codes::sqlite_limit_trigger_depth(),
            SqliteLimit::WorkerThreads => codes::sqlite_limit_worker_threads(),
        }
    }
}

/// The value `sqlite3_limit` is given to read a limit without changing it.
pub const QUERY_LIMIT_VALUE: i32 = -1i32;

/// The limits that hardening sets, in the order it sets them: every limit
/// but `WorkerThreads`, whose default of 0 is already safe.
pub open spec fn hardened_limits() -> Seq<SqliteLimit> {
    seq![
        SqliteLimit::Length,
        SqliteLimit::SqlLength,
        SqliteLimit::ColumnCount,
        SqliteLimit::ExprDepth,
        SqliteLimit::CompoundSelect,
        SqliteLimit::VdbeOp,
        SqliteLimit::FunctionArg,
        SqliteLimit::Attached,
        SqliteLimit::LikePatternLength,
        SqliteLimit::VariableNumber,
        SqliteLimit::TriggerDepth,
    ]
}

/// The `(limit, value)` pairs that
/// `SqliteConnection::set_recommended_security_limits` passes to `set_limit`,
/// in order: each hardened limit with its `SAFE_*_LIMIT` value.
pub fn recommended_security_limits() -> (r: Vec<(SqliteLimit, i32)>)
    ensures
        r@.len() == hardened_limits().len(),
        forall|i: int|
            0 <= i < r@.len() ==> #[trigger] r@[i] == (hardened_limits()[i], hardened_limits()[i].spec_safe()),
{
    let mut r: Vec<(SqliteLimit, i32)> = Vec::new();
    r.push((SqliteLimit::Length, SqliteLimit::SAFE_LENGTH_LIMIT));
    r.push((SqliteLimit::SqlLength, SqliteLimit::SAFE_SQL_LENGTH_LIMIT));
    r.push((SqliteLimit::ColumnCount, SqliteLimit::SAFE_COLUMN_COUNT_LIMIT));
    r.push((SqliteLimit::ExprDepth, SqliteLimit::SAFE_EXPR_DEPTH_LIMIT));
    r.push((SqliteLimit::CompoundSelect, SqliteLimit::SAFE_COMPOUND_SELECT_LIMIT));
    r.push((SqliteLimit::VdbeOp, SqliteLimit::SAFE_VDBE_OP_LIMIT));
    r.push((SqliteLimit::FunctionArg, SqliteLimit::SAFE_FUNCTION_ARG_LIMIT));
    r.push((SqliteLimit::Attached, SqliteLimit::SAFE_ATTACHED_LIMIT));
    r.push((SqliteLimit::LikePatternLength, SqliteLimit::SAFE_LIKE_PATTERN_LENGTH_LIMIT));
    r.push((SqliteLimit::VariableNumber, SqliteLimit::SAFE_VARIABLE_NUMBER_LIMIT));
    r.push((SqliteLimit::TriggerDepth, SqliteLimit::SAFE_TRIGGER_DEPTH_LIMIT));
    r
}

/// Hardening sets each limit at most once and leaves `WorkerThreads` alone:
/// the limits it sets are pairwise distinct and none is `WorkerThreads`.
pub proof fn lemma_hardening_sets_each_limit_once()
    ensures
        forall|i: int, j: int|
            0 <= i < j < hardened_limits().len() ==> #[trigger] hardened_limits()[i] != #[trigger] hardened_limits()[j],
        forall|i: int| 0 <= i < hardened_limits().len() ==> #[trigger] hardened_limits()[i] != SqliteLimit::WorkerThreads,
{
}

/// Hardening sets every limit but `WorkerThreads`.
pub proof fn lemma_hardening_covers_every_other_limit(l: SqliteLimit)
    requires
        l != SqliteLimit::WorkerThreads,
    ensures
        hardened_limits().contains(l),
{
    let h = hardened_limits();
    match l {
        SqliteLimit::Length => assert(h[0] == l),
        SqliteLimit::SqlLength => assert(h[1] == l),
        SqliteLimit::ColumnCount => assert(h[2] == l),
        SqliteLimit::ExprDepth => assert(h[3] == l),
        SqliteLimit::CompoundSelect => assert(h[4] == l),
        SqliteLimit::VdbeOp => assert(h[5] == l),
        SqliteLimit::FunctionArg => assert(h[6] == l),
        SqliteLimit::Attached => assert(h[7] == l),
        SqliteLimit::LikePatternLength => assert(h[8] == l),
        SqliteLimit::VariableNumber => assert(h[9] == l),
        SqliteLimit::TriggerDepth => assert(h[10] == l),
        SqliteLimit::WorkerThreads => {},
    }
}

/// No hardened value is above SQLite's default, and none is negative.
pub proof fn lemma_safe_limits_never_exceed_defaults(l: SqliteLimit)
    ensures
        0 <= l.spec_safe() <= l.spec_default(),
{
}

/// Distinct limits are distinct `sqlite3_limit` categories.
pub proof fn lemma_limit_codes_are_distinct(l1: SqliteLimit, l2: SqliteLimit)
    requires
        l1.spec_code() == l2.spec_code(),
    ensures
        l1 == l2,
{
}

} // verus!
