use diesel_sqlite::auto_extension::{
    error_message_buffer, extension_result_code, null_handle_message, panic_message,
};
use diesel_sqlite::connection::{deserialize_flags, deserialize_size, open_file_name_for, open_flags};
use diesel_sqlite::error::{
    check_result_code, ensure_sqlite_ok, error_kind, last_error, DatabaseErrorKind, Error,
};
use diesel_sqlite::statement_iterator::{
    step_outcome, IterationState, NextItem, NextStep, StatementIterator, StepOutcome,
};

#[test]
fn extended_codes_classify_constraint_failures() {
    assert_eq!(error_kind(libsqlite3_sys::SQLITE_CONSTRAINT_UNIQUE), DatabaseErrorKind::UniqueViolation);
    assert_eq!(error_kind(libsqlite3_sys::SQLITE_CONSTRAINT_PRIMARYKEY), DatabaseErrorKind::UniqueViolation);
    assert_eq!(error_kind(libsqlite3_sys::SQLITE_CONSTRAINT_FOREIGNKEY), DatabaseErrorKind::ForeignKeyViolation);
    assert_eq!(error_kind(libsqlite3_sys::SQLITE_CONSTRAINT_NOTNULL), DatabaseErrorKind::NotNullViolation);
    assert_eq!(error_kind(libsqlite3_sys::SQLITE_CONSTRAINT_CHECK), DatabaseErrorKind::CheckViolation);
    assert_eq!(error_kind(libsqlite3_sys::SQLITE_ERROR), DatabaseErrorKind::Unknown);
}

#[test]
fn last_error_keeps_the_message() {
    assert_eq!(
        last_error(2067, "UNIQUE constraint failed: users.id".to_string()),
        Error::DatabaseError(DatabaseErrorKind::UniqueViolation, "UNIQUE constraint failed: users.id".to_string())
    );
    assert_eq!(ensure_sqlite_ok(0, 2067, "ignored".to_string()), Ok(()));
    assert_eq!(
        ensure_sqlite_ok(19, 787, "FOREIGN KEY constraint failed".to_string()),
        Err(Error::DatabaseError(DatabaseErrorKind::ForeignKeyViolation, "FOREIGN KEY constraint failed".to_string()))
    );
}

#[test]
fn result_codes_carry_sqlite_text() {
    assert_eq!(check_result_code(0), Ok(()));
    assert_eq!(
        check_result_code(libsqlite3_sys::SQLITE_ERROR),
        Err(Error::DatabaseError(DatabaseErrorKind::Unknown, "SQL error or missing database".to_string()))
    );
    assert_eq!(
        check_result_code(libsqlite3_sys::SQLITE_RANGE),
        Err(Error::DatabaseError(
            DatabaseErrorKind::Unknown,
            "2nd parameter to sqlite3_bind out of range".to_string()
        ))
    );
}

#[test]
fn sqlite_urls_become_uri_file_names() {
    assert_eq!(open_file_name_for("sqlite://test.db?mode=memory").unwrap(), "file:test.db?mode=memory");
    assert_eq!(open_file_name_for(":memory:").unwrap(), ":memory:");
    assert_eq!(open_file_name_for("sqlite:/x").unwrap(), "sqlite:/x");
    assert_eq!(open_file_name_for("sqlite://").unwrap(), "file:");
    assert_eq!(open_file_name_for("a\0b"), Err(Error::InvalidCString));
    assert_eq!(open_file_name_for("sqlite://\0"), Err(Error::InvalidCString));
}

#[test]
fn open_and_deserialize_flags() {
    assert_eq!(
        open_flags(),
        libsqlite3_sys::SQLITE_OPEN_READWRITE | libsqlite3_sys::SQLITE_OPEN_CREATE | libsqlite3_sys::SQLITE_OPEN_URI
    );
    assert_eq!(deserialize_flags(), libsqlite3_sys::SQLITE_DESERIALIZE_READONLY as u32);
    assert_eq!(deserialize_size(4096), Ok(4096));
    if usize::BITS == 64 {
        assert_eq!(
            deserialize_size(usize::MAX),
            Err(Error::DeserializationError("out of range integral type conversion attempted".to_string()))
        );
    }
}

#[test]
fn auto_extension_messages() {
    assert_eq!(panic_message(Some("boom-str")), "auto-extension panicked: boom-str");
    assert_eq!(panic_message(Some("boom-7")), "auto-extension panicked: boom-7");
    assert_eq!(panic_message(None), "auto-extension panicked");
    assert_eq!(null_handle_message(), "auto-extension received a null database handle");
    assert_eq!(extension_result_code(true), libsqlite3_sys::SQLITE_OK);
    assert_eq!(extension_result_code(false), libsqlite3_sys::SQLITE_ERROR);
}

#[test]
fn error_message_truncates_at_interior_nul() {
    assert_eq!(error_message_buffer(b"before\0after"), Some((6, 7)));
    assert_eq!(error_message_buffer(b"boom"), Some((4, 5)));
    assert_eq!(error_message_buffer(b""), Some((0, 1)));
    assert_eq!(error_message_buffer(b"\0x"), Some((0, 1)));
}

#[test]
fn statement_iterator_first_row_fixes_the_field_count() {
    let mut it = StatementIterator::new();
    assert_eq!(it.next_step(false), NextStep::First);
    assert_eq!(it.finish_step(StepOutcome::Row, 3), NextItem::Row(3));
    assert_eq!(it.state, IterationState::Started);
    assert_eq!(it.next_step(false), NextStep::InPlace);
    assert_eq!(it.next_step(true), NextStep::CopyThenStep);
    assert_eq!(it.finish_step(StepOutcome::Row, 99), NextItem::Row(3));
    assert_eq!(it.finish_step(StepOutcome::Done, 0), NextItem::End);
    assert_eq!(it.state, IterationState::Started);
}

#[test]
fn statement_iterator_empty_or_failed_first_step_spends_it() {
    let mut it = StatementIterator::new();
    assert_eq!(it.finish_step(StepOutcome::Done, 2), NextItem::End);
    assert_eq!(it.state, IterationState::Spent);

    let mut it = StatementIterator::new();
    let e = Error::DatabaseError(DatabaseErrorKind::Unknown, "no such table: users".to_string());
    assert_eq!(it.finish_step(StepOutcome::Failed(e.clone()), 2), NextItem::Failed(e));
    assert_eq!(it.state, IterationState::Spent);
}

#[test]
fn statement_iterator_copy_failure_message() {
    let it = StatementIterator::new();
    match it.copy_failed() {
        NextItem::Failed(Error::DeserializationError(m)) => assert!(m.starts_with("Failed to reborrow row")),
        other => panic!("unexpected {:?}", other),
    }
}

#[test]
fn step_codes_become_outcomes() {
    let e = Error::DatabaseError(DatabaseErrorKind::Unknown, "disk I/O error".to_string());
    assert_eq!(step_outcome(libsqlite3_sys::SQLITE_ROW, e.clone()), StepOutcome::Row);
    assert_eq!(step_outcome(libsqlite3_sys::SQLITE_DONE, e.clone()), StepOutcome::Done);
    assert_eq!(step_outcome(libsqlite3_sys::SQLITE_IOERR, e.clone()), StepOutcome::Failed(e));
}
