//! Auto-extensions (`sqlite3_auto_extension`): the result an extension
//! reports to SQLite and the error message it leaves there.

use crate::codes;
use vstd::prelude::*;

verus! {

/// The message reported when an auto-extension is called without a database handle.
pub fn null_handle_message() -> (r: String)
    ensures
        r@ == "auto-extension received a null database handle"@,
{
    String::from_str("auto-extension received a null database handle")
}

/// The message reported when an auto-extension panicked: with the panic's
/// message when it carries one.
pub fn panic_message(detail: Option<&str>) -> (r: String)
    ensures
        r@ == (match detail {
            Some(d) => "auto-extension panicked: "@ + d@,
            None => "auto-extension panicked"@,
        }),
{
    match detail {
        Some(d) => {
            let mut m = String::from_str("auto-extension panicked: ");
            m.append(d);
            m
        },
        None => String::from_str("auto-extension panicked"),
    }
}

/// The result code an auto-extension returns: `SQLITE_OK` when it succeeded,
/// `SQLITE_ERROR` when it failed (its message is then handed over).
pub fn extension_result_code(succeeded: bool) -> (r: i32)
    ensures
        r == (if succeeded {
            0i32
        } else {
            1i32
        }),
{
    if succeeded {
        codes::sqlite_ok()
    } else {
        codes::sqlite_error()
    }
}

/// The number of bytes of a message up to its first NUL byte (all of them
/// when it has none).
pub open spec fn text_before_nul(bytes: Seq<u8>) -> nat
    decreases bytes.len(),
{
    if bytes.len() == 0 {
        0
    } else if bytes[0] == 0 {
        0
    } else {
        1 + text_before_nul(bytes.drop_first())
    }
}

/// How an error message is copied into the buffer SQLite frees: the number
/// of bytes copied (those before the first NUL byte) and the size of the
/// buffer (one more, for the terminating NUL); `None` when that size does
/// not fit a C `int`, in which case the message is dropped.
pub fn error_message_buffer(bytes: &[u8]) -> (r: Option<(usize, i32)>)
    ensures
        text_before_nul(bytes@) + 1 <= i32::MAX <==> r is Some,
        r matches Some((len, size)) ==> len == text_before_nul(bytes@) && size == len + 1,
{
    let n = bytes.len();
    let mut i: usize = 0;
    assert(bytes@.subrange(0, n as int) =~= bytes@);
    while i < n && bytes[i] != 0
        invariant
            n == bytes@.len(),
            i <= n,
            forall|j: int| 0 <= j < i ==> bytes@[j] != 0,
            text_before_nul(bytes@) == i + text_before_nul(bytes@.subrange(i as int, n as int)),
        decreases n - i,
    {
        let ghost rest = bytes@.subrange(i as int, n as int);
        assert(rest.drop_first() =~= bytes@.subrange(i + 1, n as int));
        i = i + 1;
    }
    proof {
        let rest = bytes@.subrange(i as int, n as int);
        if i < n {
            assert(rest[0] == 0);
        } else {
            assert(rest.len() == 0);
        }
    }
    if i >= 0x7fff_ffffusize {
        None
    } else {
        Some((i, (i + 1) as i32))
    }
}

} // verus!
