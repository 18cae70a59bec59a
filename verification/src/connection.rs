//! Opening a connection: the file name SQLite is given for a database URL
//! and the flags it is opened with; and the size of a buffer handed to
//! `sqlite3_deserialize`.

use crate::codes;
use crate::error::Error;
use vstd::prelude::*;

verus! {

/// The file name SQLite opens for a database URL: a URL that starts with
/// `sqlite://` has that prefix replaced by `file:` (a URI file name); any
/// other URL is used as it is.
pub open spec fn open_file_name(url: Seq<char>) -> Seq<char> {
    if url.len() >= 9 && url.subrange(0, 9) == "sqlite://"@ {
        "file:"@ + url.subrange(9, url.len() as int)
    } else {
        url
    }
}

/// The file name `sqlite3_open_v2` is given for `url`; a name holding a NUL
/// character cannot be a C string and fails.
pub fn open_file_name_for(url: &str) -> (r: Result<String, Error>)
    ensures
        r is Ok <==> !open_file_name(url@).contains('\0'),
        r matches Ok(s) ==> s@ == open_file_name(url@),
        r matches Err(e) ==> e == Error::InvalidCString,
{
    proof {
        reveal_strlit("sqlite://");
        reveal_strlit("file:");
    }
    let n = url.unicode_len();
    let name: String = if n >= 9 && String::from_str(url.substring_char(0, 9)) == String::from_str(
        "sqlite://",
    ) {
        let mut s = String::from_str("file:");
        s.append(url.substring_char(9, n));
        s
    } else {
        String::from_str(url)
    };
    assert(name@ == open_file_name(url@));
    let text = name.as_str();
    let m = text.unicode_len();
    let mut i: usize = 0;
    while i < m
        invariant
            m == text@.len(),
            text@ == open_file_name(url@),
            i <= m,
            forall|j: int| 0 <= j < i ==> text@[j] != '\0',
        decreases m - i,
    {
        if text.get_char(i) == '\0' {
            assert(text@.contains('\0'));
            return Err(Error::InvalidCString);
        }
        i = i + 1;
    }
    assert(!text@.contains('\0'));
    Ok(name)
}

/// The flags a connection is opened with: read-write, create, URI file names.
pub fn open_flags() -> (r: i32)
    ensures
        r == 70,
{
    let rw = codes::sqlite_open_readwrite();
    let cr = codes::sqlite_open_create();
    let uri = codes::sqlite_open_uri();
    assert(2i32 | 4i32 | 64i32 == 70i32) by (bit_vector);
    rw | cr | uri
}

/// The size of a buffer of `len` bytes as `sqlite3_deserialize` takes it; a
/// length beyond `i64::MAX` fails to deserialize.
pub fn deserialize_size(len: usize) -> (r: Result<i64, Error>)
    ensures
        len <= i64::MAX <==> r is Ok,
        r matches Ok(n) ==> n == len,
        r matches Err(e) ==> e matches Error::DeserializationError(m) && m@
            == "out of range integral type conversion attempted"@,
{
    if len as u64 > 0x7fff_ffff_ffff_ffffu64 {
        Err(
            Error::DeserializationError(
                String::from_str("out of range integral type conversion attempted"),
            ),
        )
    } else {
        Ok(len as i64)
    }
}

/// The `mFlags` of `sqlite3_deserialize`: a read-only database.
pub fn deserialize_flags() -> (r: u32)
    ensures
        r == 4,
{
    codes::sqlite_deserialize_readonly()
}

} // verus!
