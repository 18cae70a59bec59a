use diesel_sqlite::hooks::{
    collation_operands, collation_result, error_message_length, progress_interval, wal_page_count, BusyDecision, CollationNeededContext,
    CommitDecision, ProgressDecision, SqliteTextRep,
};
use diesel_sqlite::trace::{SqliteTraceEvent, SqliteTraceFlags, TRACE_PROFILE, TRACE_ROW, TRACE_STMT};

#[test]
fn trace_flags_match_sqlite_bits() {
    assert_eq!(SqliteTraceFlags::stmt().bits(), libsqlite3_sys::SQLITE_TRACE_STMT as u32);
    assert_eq!(SqliteTraceFlags::profile().bits(), libsqlite3_sys::SQLITE_TRACE_PROFILE as u32);
    assert_eq!(SqliteTraceFlags::row().bits(), libsqlite3_sys::SQLITE_TRACE_ROW as u32);
    assert_eq!(SqliteTraceFlags::all().bits(), 7);
    assert!(SqliteTraceFlags::empty().is_empty());
    assert!(!SqliteTraceFlags::row().is_empty());
}

#[test]
fn trace_union_contains_both_masks() {
    let m = SqliteTraceFlags::stmt().union(SqliteTraceFlags::profile());
    assert_eq!(m.bits(), 3);
    assert!(m.contains(SqliteTraceFlags::stmt()));
    assert!(m.contains(SqliteTraceFlags::profile()));
    assert!(!m.contains(SqliteTraceFlags::row()));
    assert!(SqliteTraceFlags::all().contains(m));
    assert!(m.contains(SqliteTraceFlags::empty()));
}

#[test]
fn trace_from_bits_truncate_drops_unknown_bits() {
    assert_eq!(SqliteTraceFlags::from_bits_truncate(0xff).bits(), 7);
    assert_eq!(SqliteTraceFlags::from_bits_truncate(8).bits(), 0);
    assert_eq!(SqliteTraceFlags::from_bits_truncate(5).bits(), 5);
}

#[test]
fn trace_statement_event_carries_sql_and_readonly() {
    match SqliteTraceEvent::from_ffi(TRACE_STMT, Some("SELECT 1"), None, true) {
        Some(SqliteTraceEvent::Statement { sql, readonly, .. }) => {
            assert_eq!(sql, "SELECT 1");
            assert!(readonly);
        }
        other => panic!("unexpected event {:?}", other),
    }
    assert!(SqliteTraceEvent::from_ffi(TRACE_STMT, None, None, false).is_none());
}

#[test]
fn trace_profile_event_carries_duration() {
    match SqliteTraceEvent::from_ffi(TRACE_PROFILE, Some("INSERT INTO t VALUES (1)"), Some(1500), false) {
        Some(SqliteTraceEvent::Profile { sql, duration_ns, readonly, .. }) => {
            assert_eq!(sql, "INSERT INTO t VALUES (1)");
            assert_eq!(duration_ns, 1500);
            assert!(!readonly);
        }
        other => panic!("unexpected event {:?}", other),
    }
    match SqliteTraceEvent::from_ffi(TRACE_PROFILE, None, None, true) {
        Some(SqliteTraceEvent::Profile { sql, duration_ns, readonly, .. }) => {
            assert_eq!(sql, "");
            assert_eq!(duration_ns, 0);
            assert!(readonly);
        }
        other => panic!("unexpected event {:?}", other),
    }
}

#[test]
fn trace_row_and_unknown_events() {
    assert!(matches!(
        SqliteTraceEvent::from_ffi(TRACE_ROW, None, None, false),
        Some(SqliteTraceEvent::Row)
    ));
    assert!(SqliteTraceEvent::from_ffi(libsqlite3_sys::SQLITE_TRACE_CLOSE as u32, None, None, false).is_none());
    assert!(SqliteTraceEvent::from_ffi(0, Some("x"), None, false).is_none());
}

#[test]
fn hook_decisions_map_to_sqlite_values() {
    assert_eq!(CommitDecision::Proceed.to_ffi(), 0);
    assert_eq!(CommitDecision::Rollback.to_ffi(), 1);
    assert_eq!(ProgressDecision::Continue.to_ffi(), 0);
    assert_eq!(ProgressDecision::Interrupt.to_ffi(), 1);
    assert_eq!(BusyDecision::Retry.to_ffi(), 1);
    assert_eq!(BusyDecision::GiveUp.to_ffi(), 0);
}

#[test]
fn wal_page_count_and_message_length() {
    assert_eq!(wal_page_count(12), 12);
    assert_eq!(wal_page_count(0), 0);
    assert_eq!(wal_page_count(-3), 0);
    assert_eq!(error_message_length(5), 5);
    assert_eq!(error_message_length(i32::MAX as usize), i32::MAX);
    assert_eq!(error_message_length(usize::MAX), i32::MAX);
}

#[test]
fn collation_result_follows_ordering() {
    assert_eq!(collation_result("a".cmp("b")), -1);
    assert_eq!(collation_result("b".cmp("b")), 0);
    assert_eq!(collation_result("c".cmp("b")), 1);
}

#[test]
fn from_ffi_maps_all_documented_variants() {
    assert_eq!(SqliteTextRep::from_ffi(libsqlite3_sys::SQLITE_UTF8), SqliteTextRep::Utf8);
    assert_eq!(SqliteTextRep::from_ffi(libsqlite3_sys::SQLITE_UTF16BE), SqliteTextRep::Utf16Be);
    assert_eq!(SqliteTextRep::from_ffi(libsqlite3_sys::SQLITE_UTF16LE), SqliteTextRep::Utf16Le);
}

#[test]
fn from_ffi_preserves_unknown_encodings_in_other() {
    assert_eq!(SqliteTextRep::from_ffi(4), SqliteTextRep::Other(4));
    assert_eq!(SqliteTextRep::from_ffi(0), SqliteTextRep::Other(0));
    assert_eq!(SqliteTextRep::from_ffi(-1), SqliteTextRep::Other(-1));
}

#[test]
fn collation_needed_context_keeps_name_and_encoding() {
    let ctx = CollationNeededContext::new("NOCASE_DE", libsqlite3_sys::SQLITE_UTF8);
    assert_eq!(ctx.name, "NOCASE_DE");
    assert_eq!(ctx.text_rep, SqliteTextRep::Utf8);
    let ctx = CollationNeededContext::new("X", 9);
    assert_eq!(ctx.text_rep, SqliteTextRep::Other(9));
}

#[test]
fn collation_operands_check_rhs_first() {
    assert_eq!(collation_operands(b"abc", b"abd"), Ok(("abc", "abd")));
    assert_eq!(collation_operands(&[0xff], &[0xfe]), Err("Got an invalid UTF-8 string for rhs"));
    assert_eq!(collation_operands(&[0xff], b"ok"), Err("Got an invalid UTF-8 string for lhs"));
    assert_eq!(collation_operands("é".as_bytes(), b""), Ok(("é", "")));
}

#[test]
fn progress_interval_is_clamped_to_a_positive_int() {
    assert_eq!(progress_interval(1), 1);
    assert_eq!(progress_interval(1000), 1000);
    assert_eq!(progress_interval(i32::MAX as u32), i32::MAX);
    assert_eq!(progress_interval(u32::MAX), i32::MAX);
}
