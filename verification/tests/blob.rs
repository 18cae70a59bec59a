use diesel_sqlite::blob::{close_result, BlobIoError, BlobSeek, SqliteReadOnlyBlob};
use diesel_sqlite::error::Error;

/// Reads into `buf` from `bytes` the way the connection does: the cursor
/// plans the read, the bytes at the planned offset are copied, and the
/// cursor records success.
fn read(blob: &mut SqliteReadOnlyBlob, bytes: &[u8], buf: &mut [u8]) -> Result<usize, BlobIoError> {
    let plan = blob.plan_read(buf.len())?;
    let start = plan.offset as usize;
    let end = start + plan.length as usize;
    buf[..plan.length as usize].copy_from_slice(&bytes[start..end]);
    blob.finish_read(plan, 0)
}

fn open(bytes: &[u8]) -> SqliteReadOnlyBlob {
    SqliteReadOnlyBlob::open(bytes.len() as i32).unwrap()
}

#[test]
fn read_bytes_from_blob() {
    let bytes = b"abc";
    let mut blob = open(bytes);
    let mut buf = [0u8; 16];
    let n = read(&mut blob, bytes, &mut buf).unwrap();
    assert_eq!(&buf[..n], b"abc");
    assert_eq!(read(&mut blob, bytes, &mut buf).unwrap(), 0);
}

#[test]
fn read_seek_bytes() {
    let bytes = b"abcdefghi";
    let mut data = open(bytes);

    let mut buf = [0; 1];
    assert_eq!(read(&mut data, bytes, &mut buf).unwrap(), 1);
    assert_eq!(&buf, b"a");

    assert_eq!(data.seek(BlobSeek::Current(1)).unwrap(), 2);
    let mut buf = [0; 1];
    assert_eq!(read(&mut data, bytes, &mut buf).unwrap(), 1);
    assert_eq!(&buf, b"c");

    assert_eq!(data.seek(BlobSeek::Start(0)).unwrap(), 0);
    let mut buf = [0; 1];
    assert_eq!(read(&mut data, bytes, &mut buf).unwrap(), 1);
    assert_eq!(&buf, b"a");

    assert_eq!(data.seek(BlobSeek::End(-2)).unwrap(), 7);
    let mut buf = [0; 1];
    assert_eq!(read(&mut data, bytes, &mut buf).unwrap(), 1);
    assert_eq!(&buf, b"h");

    data.seek(BlobSeek::Current(100)).unwrap();
    let mut buf = [0; 1];
    assert_eq!(read(&mut data, bytes, &mut buf).unwrap(), 0);
}

#[test]
fn before_start_blob_seeks_return_errors_without_moving_cursor() {
    let bytes = b"abc";
    let mut data = open(bytes);
    for position in [
        BlobSeek::End(-4),
        BlobSeek::Current(-2),
        BlobSeek::End(i64::MIN),
        BlobSeek::Current(i64::MIN),
    ] {
        assert_eq!(data.seek(BlobSeek::Start(1)).unwrap(), 1);
        assert_eq!(data.seek(position), Err(BlobIoError::InvalidInput));
        assert_eq!(data.read_index(), 1);
        let mut buf = [0; 1];
        assert_eq!(read(&mut data, bytes, &mut buf).unwrap(), 1);
        assert_eq!(&buf, b"b");
    }

    assert_eq!(data.seek(BlobSeek::End(-3)).unwrap(), 0);
    let mut buf = [0; 1];
    read(&mut data, bytes, &mut buf).unwrap();
    assert_eq!(&buf, b"a");
    assert_eq!(data.seek(BlobSeek::Current(-1)).unwrap(), 0);
}

#[test]
fn seek_past_the_end_stops_at_the_end() {
    let mut data = open(b"abcd");
    assert_eq!(data.seek(BlobSeek::Start(99)).unwrap(), 4);
    assert_eq!(data.seek(BlobSeek::End(5)).unwrap(), 4);
    assert_eq!(data.seek(BlobSeek::Start(2)).unwrap(), 2);
    assert_eq!(data.seek(BlobSeek::Current(i64::MAX)).unwrap(), 4);
    assert_eq!(data.seek(BlobSeek::Current(-4)).unwrap(), 0);
}

#[test]
fn read_plan_is_bounded_by_buffer_and_remaining_bytes() {
    let mut data = open(b"abcdef");
    let p = data.plan_read(4).unwrap();
    assert_eq!((p.offset, p.length), (0, 4));
    data.seek(BlobSeek::Start(4)).unwrap();
    let p = data.plan_read(4).unwrap();
    assert_eq!((p.offset, p.length), (4, 2));
    assert_eq!(data.plan_read(usize::MAX), Err(BlobIoError::InvalidInput));
}

#[test]
fn failed_read_reports_sqlite_text_and_keeps_position() {
    let mut data = open(b"abcdef");
    let p = data.plan_read(3).unwrap();
    let r = data.finish_read(p, libsqlite3_sys::SQLITE_ABORT);
    assert_eq!(r, Err(BlobIoError::Sqlite("Callback routine requested an abort".to_string())));
    assert_eq!(data.read_index(), 0);
}

#[test]
fn blob_handle_closes_once() {
    let mut data = open(b"abc");
    assert!(data.is_open_now());
    assert_eq!(data.len(), 3);
    assert!(!data.is_empty());
    assert_eq!(data.begin_close(), Ok(()));
    assert!(!data.is_open_now());
    assert_eq!(
        data.begin_close(),
        Err(Error::ClosingHandle("handle already closed".to_string()))
    );
    assert_eq!(data.plan_read(1), Err(BlobIoError::Closed));
}

#[test]
fn negative_blob_size_is_a_conversion_error() {
    assert!(matches!(SqliteReadOnlyBlob::open(-1), Err(Error::IntegerConversion)));
    assert!(SqliteReadOnlyBlob::open(0).unwrap().is_empty());
}

#[test]
fn close_result_maps_codes() {
    assert_eq!(close_result(0), Ok(()));
    assert_eq!(
        close_result(libsqlite3_sys::SQLITE_BUSY),
        Err(Error::ClosingHandle("The database file is locked".to_string()))
    );
}
