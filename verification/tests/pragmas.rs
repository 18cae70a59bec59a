use diesel_sqlite::error::Error;
use diesel_sqlite::pragmas::{
    attach_database_query, detach_database_query, incremental_vacuum_sql, set_pragma_int_sql,
    vacuum_query, wal_checkpoint_sql, AutoVacuumMode, Pragma, WalCheckpointMode,
    WalCheckpointOutcome,
};

#[test]
fn auto_vacuum_modes_round_trip() {
    for mode in [AutoVacuumMode::Disabled, AutoVacuumMode::Full, AutoVacuumMode::Incremental] {
        assert_eq!(AutoVacuumMode::from_i32(mode.to_i32()), Ok(mode));
    }
    assert_eq!(AutoVacuumMode::Disabled.to_i32(), 0);
    assert_eq!(AutoVacuumMode::Full.to_i32(), 1);
    assert_eq!(AutoVacuumMode::Incremental.to_i32(), 2);
}

#[test]
fn unknown_auto_vacuum_value_is_a_deserialization_error() {
    assert!(matches!(AutoVacuumMode::from_i32(3), Err(Error::DeserializationError(_))));
    assert!(matches!(AutoVacuumMode::from_i32(-1), Err(Error::DeserializationError(_))));
}

#[test]
fn pragma_read_quotes_the_schema() {
    assert_eq!(Pragma::new("auto_vacuum", None).to_sql(), "PRAGMA `main`.auto_vacuum");
    assert_eq!(Pragma::new("page_count", Some("aux")).to_sql(), "PRAGMA `aux`.page_count");
    assert_eq!(
        Pragma::new("freelist_count", Some("we`ird")).to_sql(),
        "PRAGMA `we``ird`.freelist_count"
    );
}

#[test]
fn pragma_write_renders_the_value() {
    assert_eq!(set_pragma_int_sql(None, "auto_vacuum", 2), "PRAGMA `main`.auto_vacuum = 2");
    assert_eq!(set_pragma_int_sql(Some("aux"), "x", -17), "PRAGMA `aux`.x = -17");
}

#[test]
fn incremental_vacuum_with_and_without_pages() {
    assert_eq!(incremental_vacuum_sql(None, None), "PRAGMA `main`.incremental_vacuum");
    assert_eq!(incremental_vacuum_sql(Some("aux"), Some(10)), "PRAGMA `aux`.incremental_vacuum(10)");
    assert_eq!(incremental_vacuum_sql(None, Some(0)), "PRAGMA `main`.incremental_vacuum(0)");
}

#[test]
fn vacuum_binds_the_target_path() {
    let q = vacuum_query(None, None);
    assert_eq!(q.sql, "VACUUM `main`");
    assert!(q.binds.is_empty());
    let q = vacuum_query(Some("aux"), Some("/tmp/copy.db"));
    assert_eq!(q.sql, "VACUUM `aux` INTO ?");
    assert_eq!(q.binds, vec!["/tmp/copy.db"]);
}

#[test]
fn wal_checkpoint_text_per_mode() {
    assert_eq!(wal_checkpoint_sql(None, WalCheckpointMode::Passive), "PRAGMA wal_checkpoint(PASSIVE)");
    assert_eq!(wal_checkpoint_sql(Some("main"), WalCheckpointMode::Full), "PRAGMA `main`.wal_checkpoint(FULL)");
    assert_eq!(wal_checkpoint_sql(None, WalCheckpointMode::Restart), "PRAGMA wal_checkpoint(RESTART)");
    assert_eq!(
        wal_checkpoint_sql(Some("a b"), WalCheckpointMode::Truncate),
        "PRAGMA `a b`.wal_checkpoint(TRUNCATE)"
    );
    assert_eq!(wal_checkpoint_sql(None, WalCheckpointMode::Noop), "PRAGMA wal_checkpoint(NOOP)");
}

#[test]
fn wal_checkpoint_outcome_reads_minus_one_as_none() {
    let o = WalCheckpointOutcome::from_row(0, 0, 0);
    assert!(!o.busy);
    assert_eq!(o.log_frames, Some(0));
    assert_eq!(o.checkpointed_frames, Some(0));
    let o = WalCheckpointOutcome::from_row(1, -1, -1);
    assert!(o.busy);
    assert_eq!(o.log_frames, None);
    assert_eq!(o.checkpointed_frames, None);
    let o = WalCheckpointOutcome::from_row(0, 5, 3);
    assert_eq!(o.log_frames, Some(5));
    assert_eq!(o.checkpointed_frames, Some(3));
}

#[test]
fn attach_and_detach_bind_their_operands() {
    let q = attach_database_query("it's.db", "aux");
    assert_eq!(q.sql, "ATTACH DATABASE ? AS ?");
    assert_eq!(q.binds, vec!["it's.db", "aux"]);
    let q = detach_database_query("aux");
    assert_eq!(q.sql, "DETACH DATABASE ?");
    assert_eq!(q.binds, vec!["aux"]);
}
