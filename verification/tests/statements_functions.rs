use diesel_sqlite::app_defined_fn::{
    Context, IntoSqliteResult, NoMem, SqliteArgument, SqliteResultCall, Text, TooBig,
};
use diesel_sqlite::backend::SqliteType;
use diesel_sqlite::bind_collector::SqliteBindValueRef;
use diesel_sqlite::error::{DatabaseErrorKind, Error};
use diesel_sqlite::extensions::{
    SqliteExtension, SqliteMathFunctionsExtension, SqliteSpellfix1Extension, SqliteUUIDExtension,
};
use diesel_sqlite::functions::{check_function_arity, FunctionRow, MAX_FUNCTION_ARGS};
use diesel_sqlite::nodes::{blob_location, Identifier, InfixNode};
use diesel_sqlite::row::OwnedSqliteValue;
use diesel_sqlite::serialized_value::{SerializedBind, SerializedValue};
use diesel_sqlite::sql::push_identifier;
use diesel_sqlite::stmt::{bind_call, binds_to_release, prepare_flags, BindCall};

#[test]
fn matching_binds_choose_their_call() {
    let text = SqliteBindValueRef::BorrowedString("abc");
    assert_eq!(bind_call(SqliteType::Text, &text), Ok((BindCall::Text("abc"), false)));
    let owned = SqliteBindValueRef::String("abc".to_string());
    assert_eq!(bind_call(SqliteType::Text, &owned), Ok((BindCall::Text("abc"), true)));
    let bytes = SqliteBindValueRef::Binary(vec![1, 2]);
    assert_eq!(bind_call(SqliteType::Binary, &bytes), Ok((BindCall::Blob(&[1, 2]), true)));
    assert_eq!(bind_call(SqliteType::Integer, &SqliteBindValueRef::I32(4)), Ok((BindCall::Int(4), false)));
    assert_eq!(bind_call(SqliteType::SmallInt, &SqliteBindValueRef::I32(4)), Ok((BindCall::Int(4), false)));
    assert_eq!(bind_call(SqliteType::Long, &SqliteBindValueRef::I64(5)), Ok((BindCall::Int64(5), false)));
    assert_eq!(bind_call(SqliteType::Float, &SqliteBindValueRef::F64(6)), Ok((BindCall::Double(6), false)));
    assert_eq!(bind_call(SqliteType::Long, &SqliteBindValueRef::Null), Ok((BindCall::Null, false)));
}

#[test]
fn mismatched_bind_is_a_serialization_error() {
    assert_eq!(
        bind_call(SqliteType::Integer, &SqliteBindValueRef::BorrowedString("foo")),
        Err(Error::SerializationError("Type mismatch: Expected Integer, got Text".to_string()))
    );
    assert_eq!(
        bind_call(SqliteType::Long, &SqliteBindValueRef::I32(1)),
        Err(Error::SerializationError("Type mismatch: Expected Long, got Integer".to_string()))
    );
}

#[test]
fn only_buffer_binds_are_released() {
    let binds = vec![
        (SqliteBindValueRef::I32(1), SqliteType::Integer),
        (SqliteBindValueRef::BorrowedString("a"), SqliteType::Text),
        (SqliteBindValueRef::Null, SqliteType::Text),
        (SqliteBindValueRef::Binary(vec![1]), SqliteType::Binary),
        (SqliteBindValueRef::String("s".to_string()), SqliteType::Text),
    ];
    assert_eq!(binds_to_release(&binds), vec![(2, false), (4, true), (5, true)]);
    assert!(binds_to_release(&Vec::new()).is_empty());
}

#[test]
fn prepare_flags_mark_cached_statements_persistent() {
    assert_eq!(prepare_flags(true), libsqlite3_sys::SQLITE_PREPARE_PERSISTENT as u32);
    assert_eq!(prepare_flags(false), 0);
}

#[test]
fn function_arity_is_limited() {
    assert_eq!(MAX_FUNCTION_ARGS, 127);
    assert_eq!(check_function_arity(127), Ok(()));
    assert_eq!(
        check_function_arity(128),
        Err(Error::DatabaseError(
            DatabaseErrorKind::UnableToSendCommand,
            "SQLite functions cannot take more than 127 parameters".to_string()
        ))
    );
}

#[test]
fn function_row_reads_arguments_by_index() {
    let args = [Some(OwnedSqliteValue::Integer(3)), None];
    let row = FunctionRow::new(&args);
    assert_eq!(row.field_count(), 2);
    assert_eq!(row.idx(1), Some(1));
    assert_eq!(row.idx(2), None);
    assert_eq!(row.idx_by_name("x"), None);
    assert_eq!(row.get(0), Some(Some(&OwnedSqliteValue::Integer(3))));
    assert_eq!(row.get(1), Some(None));
    assert_eq!(row.get(2), None);
}

fn argument(int: i32, text: Option<&str>) -> SqliteArgument {
    SqliteArgument {
        int,
        int64: int as i64,
        double_bits: 0,
        text: text.map(|t| t.to_string()),
        blob: text.map(|t| t.as_bytes().to_vec()),
    }
}

#[test]
fn context_reads_typed_arguments() {
    let args = [argument(7, Some("seven")), argument(-1, None)];
    let ctx = Context::new(&args);
    assert_eq!(ctx.len(), 2);
    assert!(!ctx.is_empty());
    assert_eq!(ctx.get::<i32>(0), 7);
    assert_eq!(ctx.get::<i64>(1), -1);
    assert_eq!(ctx.get::<String>(0), "seven");
    assert_eq!(ctx.get::<Vec<u8>>(0), b"seven".to_vec());
}

#[test]
fn results_map_to_sqlite_calls() {
    assert_eq!(5i32.into_sqlite_result(), SqliteResultCall::Int(5));
    assert_eq!(5i64.into_sqlite_result(), SqliteResultCall::Int64(5));
    assert_eq!("héllo".to_string().into_sqlite_result(), SqliteResultCall::Text("héllo".to_string(), 6));
    assert_eq!("ok".into_sqlite_result(), SqliteResultCall::StaticText("ok", 2));
    assert_eq!(None::<i32>.into_sqlite_result(), SqliteResultCall::Null);
    assert_eq!(Ok::<i32, TooBig>(1).into_sqlite_result(), SqliteResultCall::Int(1));
    assert_eq!(Err::<i32, TooBig>(TooBig).into_sqlite_result(), SqliteResultCall::ErrorTooBig);
    assert_eq!(Err::<i32, NoMem>(NoMem).into_sqlite_result(), SqliteResultCall::ErrorNoMem);
    assert_eq!(
        Err::<i32, Text>(Text("bad input".to_string())).into_sqlite_result(),
        SqliteResultCall::Error("bad input".to_string())
    );
}

#[test]
fn serialized_values_bind_by_type() {
    let v = SerializedValue { ty: SqliteType::Long, data: Some(7i64.to_ne_bytes().to_vec()) };
    assert_eq!(v.bind_call(), SerializedBind::Long(&7i64.to_ne_bytes()));
    let v = SerializedValue { ty: SqliteType::Text, data: Some(b"hi".to_vec()) };
    assert_eq!(v.bind_call(), SerializedBind::Text(b"hi"));
    let v = SerializedValue { ty: SqliteType::Integer, data: None };
    assert_eq!(v.bind_call(), SerializedBind::Null);
}

#[test]
fn blob_location_defaults_to_main() {
    assert_eq!(blob_location(&Identifier("users")), ("main", "users"));
    let t = InfixNode { lhs: Identifier("aux"), rhs: Identifier("posts") };
    assert_eq!(blob_location(&t), ("aux", "posts"));
}

#[test]
fn extension_file_names() {
    assert_eq!(SqliteUUIDExtension::filename(), "uuid");
    assert_eq!(SqliteMathFunctionsExtension::filename(), "extension-functions");
    assert_eq!(SqliteSpellfix1Extension::filename(), "spellfix1");
}

#[test]
fn identifiers_are_quoted_with_doubled_backticks() {
    let mut out = String::from("SELECT * FROM ");
    push_identifier(&mut out, "my`table");
    assert_eq!(out, "SELECT * FROM `my``table`");
    let mut out = String::new();
    push_identifier(&mut out, "");
    assert_eq!(out, "``");
}

#[test]
fn quoted_names_cannot_close_the_quote_early() {
    let mut out = String::from("PRAGMA ");
    push_identifier(&mut out, "x` ; DROP TABLE t; --");
    out.push_str(".page_count");
    assert_eq!(out, "PRAGMA `x`` ; DROP TABLE t; --`.page_count");
}
