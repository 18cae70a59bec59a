use diesel_sqlite::backend::SqliteType;
use diesel_sqlite::bind_collector::{
    OwnedSqliteBindValue, ResultCall, SqliteBindCollector, SqliteBindValue, SqliteBindValueRef,
};
use diesel_sqlite::error::Error;
use diesel_sqlite::row::{duplicate_values, moveable_row, value_kind, OwnedSqliteRow, OwnedSqliteValue, ValueKind};
use diesel_sqlite::serialized_database::{serialize_outcome, serialized_len, SerializeOutcome, SerializedDatabase};

#[test]
fn collected_binds_are_readable_in_positional_order_with_their_type() {
    let mut collector = SqliteBindCollector::new();
    collector.push_bound_value(SqliteBindValue::from_i32(1), false, SqliteType::Integer);
    collector.push_bound_value(SqliteBindValue::from_i64(2), false, SqliteType::Long);
    collector.push_bound_value(SqliteBindValue::from_f64_bits(3.5_f64.to_bits()), false, SqliteType::Double);
    collector.push_bound_value(SqliteBindValue::from_str("hello"), false, SqliteType::Text);
    collector.push_bound_value(SqliteBindValue::from_vec(vec![1, 2, 3]), false, SqliteType::Binary);
    collector.push_bound_value(SqliteBindValue::from_option(None), true, SqliteType::Integer);
    let data = collector.moveable();

    let types: Vec<_> = data.binds().iter().map(|(_, t)| *t).collect();
    assert_eq!(
        types,
        [
            SqliteType::Integer,
            SqliteType::Long,
            SqliteType::Double,
            SqliteType::Text,
            SqliteType::Binary,
            SqliteType::Integer,
        ]
    );
    let binds = data.binds();
    assert!(matches!(binds[0].0, OwnedSqliteBindValue::I32(1)));
    assert!(matches!(binds[1].0, OwnedSqliteBindValue::I64(2)));
    assert!(matches!(binds[2].0, OwnedSqliteBindValue::F64(f) if f64::from_bits(f) == 3.5));
    assert!(matches!(&binds[3].0, OwnedSqliteBindValue::String(s) if s == "hello"));
    assert!(matches!(&binds[4].0, OwnedSqliteBindValue::Binary(b) if **b == [1, 2, 3]));
    assert!(matches!(binds[5].0, OwnedSqliteBindValue::Null));
}

#[test]
fn moveable_owns_every_internal_variant() {
    let collector = SqliteBindCollector {
        binds: vec![
            (SqliteBindValueRef::BorrowedString("borrowed"), SqliteType::Text),
            (SqliteBindValueRef::String("owned".into()), SqliteType::Text),
            (SqliteBindValueRef::BorrowedBinary(&[1, 2]), SqliteType::Binary),
            (SqliteBindValueRef::Binary(vec![3, 4]), SqliteType::Binary),
            (SqliteBindValueRef::I32(7), SqliteType::Integer),
            (SqliteBindValueRef::I64(8), SqliteType::Long),
            (SqliteBindValueRef::F64(9.0_f64.to_bits()), SqliteType::Double),
            (SqliteBindValueRef::Null, SqliteType::Text),
        ],
    };

    let data = collector.moveable();
    let binds = data.binds();
    assert!(matches!(&binds[0].0, OwnedSqliteBindValue::String(s) if s == "borrowed"));
    assert!(matches!(&binds[1].0, OwnedSqliteBindValue::String(s) if s == "owned"));
    assert!(matches!(&binds[2].0, OwnedSqliteBindValue::Binary(b) if **b == [1, 2]));
    assert!(matches!(&binds[3].0, OwnedSqliteBindValue::Binary(b) if **b == [3, 4]));
    assert!(matches!(binds[4].0, OwnedSqliteBindValue::I32(7)));
    assert!(matches!(binds[5].0, OwnedSqliteBindValue::I64(8)));
    assert!(matches!(binds[6].0, OwnedSqliteBindValue::F64(f) if f64::from_bits(f) == 9.0));
    assert!(matches!(binds[7].0, OwnedSqliteBindValue::Null));
}

#[test]
fn append_bind_data_round_trips_the_owned_snapshot() {
    let mut first = SqliteBindCollector::new();
    first.push_bound_value(SqliteBindValue::from_i32(42), false, SqliteType::Integer);
    first.push_bound_value(SqliteBindValue::from_str("text"), false, SqliteType::Text);
    first.push_null_value(SqliteType::Integer);
    let data = first.moveable();

    let mut collector = SqliteBindCollector::new();
    collector.append_bind_data(&data);
    let round_tripped = collector.moveable();
    let binds = round_tripped.binds();
    assert_eq!(binds.len(), 3);
    assert!(matches!(binds[0].0, OwnedSqliteBindValue::I32(42)));
    assert!(matches!(&binds[1].0, OwnedSqliteBindValue::String(s) if s == "text"));
    assert!(matches!(binds[2].0, OwnedSqliteBindValue::Null));
    assert_eq!(binds[1].1, SqliteType::Text);
}

#[test]
fn null_flag_overrides_the_written_value() {
    let mut collector = SqliteBindCollector::new();
    collector.push_bound_value(SqliteBindValue::from_i32(5), true, SqliteType::Integer);
    assert!(matches!(collector.binds[0].0, SqliteBindValueRef::Null));
}

#[test]
fn bind_value_type_names() {
    assert_eq!(SqliteBindValueRef::BorrowedString("x").sql_type_name(), "Text");
    assert_eq!(SqliteBindValueRef::Binary(vec![]).sql_type_name(), "Binary");
    assert_eq!(SqliteBindValueRef::I64(1).sql_type_name(), "Integer");
    assert_eq!(SqliteBindValueRef::F64(0).sql_type_name(), "Float");
    assert_eq!(SqliteBindValueRef::Null.sql_type_name(), "Null");
    assert_eq!(SqliteType::Long.name(), "Long");
}

#[test]
fn result_calls_carry_byte_counts() {
    assert_eq!(SqliteBindValueRef::BorrowedString("héllo").result_of(), Ok(ResultCall::Text("héllo", 6)));
    assert_eq!(SqliteBindValueRef::Binary(vec![1, 2, 3]).result_of(), Ok(ResultCall::Blob(&[1, 2, 3], 3)));
    assert_eq!(SqliteBindValueRef::I32(-4).result_of(), Ok(ResultCall::Int(-4)));
    assert_eq!(SqliteBindValueRef::I64(1 << 40).result_of(), Ok(ResultCall::Int64(1 << 40)));
    assert_eq!(SqliteBindValueRef::F64(7).result_of(), Ok(ResultCall::Double(7)));
    assert_eq!(SqliteBindValueRef::Null.result_of(), Ok(ResultCall::Null));
}

#[test]
fn owned_value_copies_round_trip() {
    let owned = OwnedSqliteBindValue::from_ref(&SqliteBindValueRef::BorrowedBinary(&[9, 9]));
    assert!(matches!(&owned, OwnedSqliteBindValue::Binary(b) if **b == [9, 9]));
    assert!(matches!(owned.to_ref(), SqliteBindValueRef::Binary(b) if b == vec![9, 9]));
}

fn sample_row() -> OwnedSqliteRow {
    OwnedSqliteRow::new(
        vec![
            Some(OwnedSqliteValue::Integer(1)),
            Some(OwnedSqliteValue::Text("Sean".to_string())),
            None,
            Some(OwnedSqliteValue::Text("dup".to_string())),
        ],
        vec![
            Some("id".to_string()),
            Some("name".to_string()),
            None,
            Some("name".to_string()),
        ],
    )
}

#[test]
fn owned_row_lookup_by_index_and_name() {
    let row = sample_row();
    assert_eq!(row.field_count(), 4);
    assert_eq!(row.idx(3), Some(3));
    assert_eq!(row.idx(4), None);
    assert_eq!(row.idx_by_name("name"), Some(1));
    assert_eq!(row.idx_by_name("missing"), None);

    let f = row.get_by_name("name").unwrap();
    assert_eq!(f.field_name(), Some("name"));
    assert_eq!(f.value(), Some(&OwnedSqliteValue::Text("Sean".to_string())));
    assert!(!f.is_null());

    let f = row.get(2).unwrap();
    assert_eq!(f.field_name(), None);
    assert!(f.is_null());
    assert!(row.get(4).is_none());
}

#[test]
fn serialized_database_slices() {
    let db = SerializedDatabase::new(vec![1, 2, 3]);
    assert_eq!(db.as_slice(), &[1, 2, 3]);
    assert_eq!(SerializedDatabase::empty().try_as_slice().unwrap(), &[] as &[u8]);
    match SerializedDatabase::allocation_failed().try_as_slice() {
        Err(Error::DatabaseError(_, m)) => assert_eq!(m, "out of memory"),
        other => panic!("unexpected {:?}", other),
    }
}

#[test]
fn oversized_serialization_is_rejected() {
    if let Some(len) = i64::try_from(isize::MAX).expect("`isize::MAX` fits `i64`").checked_add(1) {
        assert!(matches!(serialized_len(len), Err(Error::IntegerConversion)));
    }
    assert!(matches!(serialized_len(i64::MIN), Err(Error::IntegerConversion)));
    assert!(matches!(serialized_len(-1), Err(Error::IntegerConversion)));
    assert_eq!(serialized_len(4096), Ok(4096));
}

#[test]
fn moveable_rows_share_the_first_cached_names() {
    let values = vec![Some(OwnedSqliteValue::Integer(1)), None, Some(OwnedSqliteValue::Blob(vec![7]))];
    let names = vec![Some("id".to_string()), None, Some("data".to_string())];
    let mut cache = None;
    let row = moveable_row(&values, &names, &mut cache);
    assert_eq!(cache, Some(names.clone()));
    assert_eq!(row.idx_by_name("data"), Some(2));
    assert_eq!(row.get(2).unwrap().value(), Some(&OwnedSqliteValue::Blob(vec![7])));

    let other_names = vec![Some("x".to_string()), None, None];
    let row = moveable_row(&values, &other_names, &mut cache);
    assert_eq!(cache, Some(names.clone()));
    assert_eq!(row.idx_by_name("id"), Some(0));
    assert_eq!(row.idx_by_name("x"), None);
}

#[test]
fn duplicated_values_keep_nulls() {
    let values = vec![None, Some(OwnedSqliteValue::Text("t".to_string())), Some(OwnedSqliteValue::Real(2.5f64.to_bits()))];
    assert_eq!(duplicate_values(&values), values);
}

#[test]
fn serialize_results_are_classified() {
    assert_eq!(serialize_outcome(true, 4096), SerializeOutcome::Read(4096));
    assert_eq!(serialize_outcome(false, 0), SerializeOutcome::Empty);
    assert_eq!(serialize_outcome(false, 4096), SerializeOutcome::AllocationFailed);
    assert_eq!(serialize_outcome(true, -1), SerializeOutcome::Unaddressable);
    assert!(matches!(SerializedDatabase::unaddressable().try_as_slice(), Err(Error::IntegerConversion)));
}

#[test]
fn column_types_choose_the_copy() {
    assert_eq!(value_kind(libsqlite3_sys::SQLITE_INTEGER), Some(ValueKind::Integer));
    assert_eq!(value_kind(libsqlite3_sys::SQLITE_FLOAT), Some(ValueKind::Real));
    assert_eq!(value_kind(libsqlite3_sys::SQLITE_TEXT), Some(ValueKind::Text));
    assert_eq!(value_kind(libsqlite3_sys::SQLITE_BLOB), Some(ValueKind::Blob));
    assert_eq!(value_kind(libsqlite3_sys::SQLITE_NULL), Some(ValueKind::Null));
    assert_eq!(value_kind(0), None);
}
