use diesel_sqlite::authorizer::{AuthorizerContext, AuthorizerDecision};
use libsqlite3_sys as ffi;

#[test]
fn create_index_carries_index_and_table() {
    let ctx = AuthorizerContext::from_ffi(ffi::SQLITE_CREATE_INDEX, Some("idx"), Some("users"), Some("main"), None);
    match ctx {
        AuthorizerContext::CreateIndex(c) => {
            assert_eq!(c.index, Some("idx"));
            assert_eq!(c.table, Some("users"));
            assert_eq!(c.database, Some("main"));
            assert_eq!(c.accessor, None);
        }
        other => panic!("unexpected {other:?}"),
    }
    assert!(ctx.is_schema_modifying());
}

#[test]
fn read_carries_table_and_column() {
    let ctx = AuthorizerContext::from_ffi(ffi::SQLITE_READ, Some("users"), Some("name"), Some("main"), Some("v"));
    match ctx {
        AuthorizerContext::Read(r) => {
            assert_eq!(r.table, Some("users"));
            assert_eq!(r.column, Some("name"));
            assert_eq!(r.database, Some("main"));
            assert_eq!(r.accessor, Some("v"));
        }
        other => panic!("unexpected {other:?}"),
    }
    assert!(!ctx.is_schema_modifying());
}

#[test]
fn function_takes_its_name_from_the_fourth_argument() {
    let ctx = AuthorizerContext::from_ffi(ffi::SQLITE_FUNCTION, None, Some("lower"), None, None);
    match ctx {
        AuthorizerContext::Function(f) => {
            assert_eq!(f.function, Some("lower"));
            assert_eq!(f.accessor, None);
        }
        other => panic!("unexpected {other:?}"),
    }
}

#[test]
fn alter_table_takes_database_from_the_third_argument() {
    let ctx = AuthorizerContext::from_ffi(ffi::SQLITE_ALTER_TABLE, Some("aux"), Some("t"), Some("ignored"), None);
    match ctx {
        AuthorizerContext::AlterTable(a) => {
            assert_eq!(a.database, Some("aux"));
            assert_eq!(a.table, Some("t"));
        }
        other => panic!("unexpected {other:?}"),
    }
    assert!(ctx.is_schema_modifying());
}

#[test]
fn detach_savepoint_transaction_attach_select_recursive() {
    match AuthorizerContext::from_ffi(ffi::SQLITE_DETACH, Some("aux"), None, None, None) {
        AuthorizerContext::Detach(d) => assert_eq!(d.database, Some("aux")),
        other => panic!("unexpected {other:?}"),
    }
    match AuthorizerContext::from_ffi(ffi::SQLITE_SAVEPOINT, Some("BEGIN"), Some("sp"), None, None) {
        AuthorizerContext::Savepoint(s) => {
            assert_eq!(s.operation, Some("BEGIN"));
            assert_eq!(s.name, Some("sp"));
        }
        other => panic!("unexpected {other:?}"),
    }
    match AuthorizerContext::from_ffi(ffi::SQLITE_TRANSACTION, Some("COMMIT"), None, None, None) {
        AuthorizerContext::Transaction(t) => assert_eq!(t.operation, Some("COMMIT")),
        other => panic!("unexpected {other:?}"),
    }
    match AuthorizerContext::from_ffi(ffi::SQLITE_ATTACH, Some("file.db"), None, None, None) {
        AuthorizerContext::Attach(a) => assert_eq!(a.filename, Some("file.db")),
        other => panic!("unexpected {other:?}"),
    }
    assert!(matches!(
        AuthorizerContext::from_ffi(ffi::SQLITE_SELECT, None, None, None, Some("trg")),
        AuthorizerContext::Select(s) if s.accessor == Some("trg")
    ));
    assert!(matches!(
        AuthorizerContext::from_ffi(ffi::SQLITE_RECURSIVE, None, None, None, None),
        AuthorizerContext::Recursive(_)
    ));
}

#[test]
fn unknown_code_keeps_raw_arguments() {
    let ctx = AuthorizerContext::from_ffi(999, Some("a"), Some("b"), Some("main"), Some("acc"));
    match ctx {
        AuthorizerContext::Unknown(u) => {
            assert_eq!(u.code, 999);
            assert_eq!(u.arg1, Some("a"));
            assert_eq!(u.arg2, Some("b"));
            assert_eq!(u.database, Some("main"));
            assert_eq!(u.accessor, Some("acc"));
        }
        other => panic!("unexpected {other:?}"),
    }
    assert!(!ctx.is_schema_modifying());
    // The deprecated SQLITE_COPY code 0 has no variant of its own.
    assert!(matches!(
        AuthorizerContext::from_ffi(0, None, None, None, None),
        AuthorizerContext::Unknown(u) if u.code == 0
    ));
}

#[test]
fn schema_modifying_codes_are_exactly_the_ddl_ones() {
    let schema = [1, 2, 3, 4, 5, 6, 7, 8, 10, 11, 12, 13, 14, 15, 16, 17, 26, 29, 30];
    for code in 0..=40 {
        let ctx = AuthorizerContext::from_ffi(code, None, None, None, None);
        assert_eq!(ctx.is_schema_modifying(), schema.contains(&code), "code {code}");
    }
}

#[test]
fn decisions_map_to_sqlite_codes() {
    assert_eq!(AuthorizerDecision::Allow.to_ffi(), ffi::SQLITE_OK);
    assert_eq!(AuthorizerDecision::Ignore.to_ffi(), ffi::SQLITE_IGNORE);
    assert_eq!(AuthorizerDecision::Deny.to_ffi(), ffi::SQLITE_DENY);
    assert_eq!(AuthorizerDecision::Deny.to_ffi(), 1);
    assert_eq!(AuthorizerDecision::Ignore.to_ffi(), 2);
}
