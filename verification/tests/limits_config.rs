use diesel_sqlite::db_config::{flag_value, read_flag, DbConfigOption, QUERY_FLAG_VALUE};
use diesel_sqlite::error::{DatabaseErrorKind, Error};
use diesel_sqlite::limits::{recommended_security_limits, SqliteLimit, QUERY_LIMIT_VALUE};
use libsqlite3_sys as ffi;

#[test]
fn limit_codes_match_sqlite() {
    assert_eq!(SqliteLimit::Length.to_ffi(), ffi::SQLITE_LIMIT_LENGTH);
    assert_eq!(SqliteLimit::SqlLength.to_ffi(), ffi::SQLITE_LIMIT_SQL_LENGTH);
    assert_eq!(SqliteLimit::ColumnCount.to_ffi(), ffi::SQLITE_LIMIT_COLUMN);
    assert_eq!(SqliteLimit::ExprDepth.to_ffi(), ffi::SQLITE_LIMIT_EXPR_DEPTH);
    assert_eq!(SqliteLimit::CompoundSelect.to_ffi(), ffi::SQLITE_LIMIT_COMPOUND_SELECT);
    assert_eq!(SqliteLimit::VdbeOp.to_ffi(), ffi::SQLITE_LIMIT_VDBE_OP);
    assert_eq!(SqliteLimit::FunctionArg.to_ffi(), ffi::SQLITE_LIMIT_FUNCTION_ARG);
    assert_eq!(SqliteLimit::Attached.to_ffi(), ffi::SQLITE_LIMIT_ATTACHED);
    assert_eq!(SqliteLimit::LikePatternLength.to_ffi(), ffi::SQLITE_LIMIT_LIKE_PATTERN_LENGTH);
    assert_eq!(SqliteLimit::VariableNumber.to_ffi(), ffi::SQLITE_LIMIT_VARIABLE_NUMBER);
    assert_eq!(SqliteLimit::TriggerDepth.to_ffi(), ffi::SQLITE_LIMIT_TRIGGER_DEPTH);
    assert_eq!(SqliteLimit::WorkerThreads.to_ffi(), ffi::SQLITE_LIMIT_WORKER_THREADS);
    assert_eq!(QUERY_LIMIT_VALUE, -1);
}

#[test]
fn recommended_limits_follow_the_security_table() {
    let plan = recommended_security_limits();
    assert_eq!(
        plan,
        vec![
            (SqliteLimit::Length, 1_000_000),
            (SqliteLimit::SqlLength, 100_000),
            (SqliteLimit::ColumnCount, 100),
            (SqliteLimit::ExprDepth, 10),
            (SqliteLimit::CompoundSelect, 3),
            (SqliteLimit::VdbeOp, 25_000),
            (SqliteLimit::FunctionArg, 8),
            (SqliteLimit::Attached, 0),
            (SqliteLimit::LikePatternLength, 50),
            (SqliteLimit::VariableNumber, 10),
            (SqliteLimit::TriggerDepth, 10),
        ]
    );
    assert!(!plan.iter().any(|(l, _)| *l == SqliteLimit::WorkerThreads));
}

#[test]
fn safe_limits_do_not_exceed_defaults() {
    let pairs = [
        (SqliteLimit::SAFE_LENGTH_LIMIT, SqliteLimit::DEFAULT_LENGTH_LIMIT),
        (SqliteLimit::SAFE_SQL_LENGTH_LIMIT, SqliteLimit::DEFAULT_SQL_LENGTH_LIMIT),
        (SqliteLimit::SAFE_COLUMN_COUNT_LIMIT, SqliteLimit::DEFAULT_COLUMN_COUNT_LIMIT),
        (SqliteLimit::SAFE_EXPR_DEPTH_LIMIT, SqliteLimit::DEFAULT_EXPR_DEPTH_LIMIT),
        (SqliteLimit::SAFE_COMPOUND_SELECT_LIMIT, SqliteLimit::DEFAULT_COMPOUND_SELECT_LIMIT),
        (SqliteLimit::SAFE_VDBE_OP_LIMIT, SqliteLimit::DEFAULT_VDBE_OP_LIMIT),
        (SqliteLimit::SAFE_FUNCTION_ARG_LIMIT, SqliteLimit::DEFAULT_FUNCTION_ARG_LIMIT),
        (SqliteLimit::SAFE_ATTACHED_LIMIT, SqliteLimit::DEFAULT_ATTACHED_LIMIT),
        (SqliteLimit::SAFE_LIKE_PATTERN_LENGTH_LIMIT, SqliteLimit::DEFAULT_LIKE_PATTERN_LENGTH_LIMIT),
        (SqliteLimit::SAFE_VARIABLE_NUMBER_LIMIT, SqliteLimit::DEFAULT_VARIABLE_NUMBER_LIMIT),
        (SqliteLimit::SAFE_TRIGGER_DEPTH_LIMIT, SqliteLimit::DEFAULT_TRIGGER_DEPTH_LIMIT),
        (SqliteLimit::SAFE_WORKER_THREADS_LIMIT, SqliteLimit::DEFAULT_WORKER_THREADS_LIMIT),
    ];
    for (safe, default) in pairs {
        assert!(0 <= safe && safe <= default);
    }
    assert_eq!(SqliteLimit::DEFAULT_VARIABLE_NUMBER_LIMIT, 32_766);
}

#[test]
fn db_config_codes_match_sqlite() {
    assert_eq!(DbConfigOption::Defensive.code(), ffi::SQLITE_DBCONFIG_DEFENSIVE);
    assert_eq!(DbConfigOption::TrustedSchema.code(), ffi::SQLITE_DBCONFIG_TRUSTED_SCHEMA);
    assert_eq!(DbConfigOption::LoadExtension.code(), ffi::SQLITE_DBCONFIG_ENABLE_LOAD_EXTENSION);
    assert_eq!(DbConfigOption::Fts3Tokenizer.code(), ffi::SQLITE_DBCONFIG_ENABLE_FTS3_TOKENIZER);
    assert_eq!(DbConfigOption::WritableSchema.code(), ffi::SQLITE_DBCONFIG_WRITABLE_SCHEMA);
    assert_eq!(DbConfigOption::AttachCreate.code(), 1020);
    assert_eq!(DbConfigOption::AttachWrite.code(), 1021);
    assert_eq!(DbConfigOption::Triggers.code(), ffi::SQLITE_DBCONFIG_ENABLE_TRIGGER);
    assert_eq!(DbConfigOption::Views.code(), ffi::SQLITE_DBCONFIG_ENABLE_VIEW);
    assert_eq!(DbConfigOption::ForeignKeys.code(), ffi::SQLITE_DBCONFIG_ENABLE_FKEY);
    assert_eq!(DbConfigOption::DoubleQuotedStringsDml.code(), ffi::SQLITE_DBCONFIG_DQS_DML);
    assert_eq!(DbConfigOption::DoubleQuotedStringsDdl.code(), ffi::SQLITE_DBCONFIG_DQS_DDL);
}

#[test]
fn db_config_flag_round_trip() {
    assert_eq!(flag_value(true), 1);
    assert_eq!(flag_value(false), 0);
    assert_eq!(QUERY_FLAG_VALUE, -1);
    assert_eq!(read_flag(0, flag_value(true), 0, String::new()), Ok(true));
    assert_eq!(read_flag(0, flag_value(false), 0, String::new()), Ok(false));
    assert_eq!(read_flag(0, 7, 0, String::new()), Ok(true));
}

#[test]
fn db_config_read_failure_reports_the_connection_error() {
    assert_eq!(
        read_flag(1, 1, 1, "bad option".to_string()),
        Err(Error::DatabaseError(DatabaseErrorKind::Unknown, "bad option".to_string()))
    );
}
