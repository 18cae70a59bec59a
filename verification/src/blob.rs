//! The cursor of a read-only SQLite blob: where the next read starts, how
//! many bytes it may read, and where a seek moves it. The bytes themselves
//! are read by `sqlite3_blob_read` at the offsets this cursor decides.

use crate::codes;
use crate::error::Error;
use vstd::prelude::*;

verus! {

/// An I/O error of a blob read or seek.
#[derive(Debug, Clone, PartialEq, Eq)]
pub enum BlobIoError {
    /// The blob handle is closed.
    Closed,
    /// A position or length does not fit the integer type SQLite or the
    /// cursor needs (`std::io::ErrorKind::InvalidInput`).
    InvalidInput,
    /// `sqlite3_blob_read` failed; SQLite's text for the result code.
    Sqlite(String),
}

/// A seek target, as `std::io::SeekFrom` gives it.
#[derive(Debug, Clone, Copy, PartialEq, Eq)]
pub enum BlobSeek {
    /// An offset from the start.
    Start(u64),
    /// An offset from the end.
    End(i64),
    /// An offset from the current position.
    Current(i64),
}

/// One planned call of `sqlite3_blob_read`: read `length` bytes at `offset`.
#[derive(Debug, Clone, Copy, PartialEq, Eq)]
pub struct BlobRead {
    /// The offset to read at.
    pub offset: i32,
    /// The number of bytes to read.
    pub length: i32,
}

/// The state of a read-only blob handle: whether it is open, its size and
/// the position of the next read, which never passes the end.
pub struct SqliteReadOnlyBlob {
    open: bool,
    read_index: usize,
    blob_size: usize,
}

/// The position a seek moves to from `index` in a blob of `size` bytes, or
/// `None` when the seek is invalid: before the start, or a number that does
/// not fit a `usize` (for `Start`, `End`) or an `isize` (for `Current`).
pub open spec fn seek_target(index: int, size: int, pos: BlobSeek) -> Option<int> {
    match pos {
        BlobSeek::Start(n) => if n > usize::MAX {
            None
        } else if n < size {
            Some(n as int)
        } else {
            Some(size)
        },
        BlobSeek::End(n) => if n > 0 {
            Some(size)
        } else if -n <= size {
            Some(size + n)
        } else {
            None
        },
        BlobSeek::Current(n) => if n < isize::MIN || n > isize::MAX {
            None
        } else if n < 0 {
            if -n <= index {
                Some(index + n)
            } else {
                None
            }
        } else if index + n < size {
            Some(index + n)
        } else {
            Some(size)
        },
    }
}

impl SqliteReadOnlyBlob {
    #[verifier::type_invariant]
    spec fn inv(self) -> bool {
        &&& self.read_index <= self.blob_size
        &&& self.blob_size <= i32::MAX
    }

    /// Whether the handle is open.
    pub closed spec fn is_open(self) -> bool {
        self.open
    }

    /// The position of the next read.
    pub closed spec fn position(self) -> nat {
        self.read_index as nat
    }

    /// The size of the blob in bytes.
    pub closed spec fn size(self) -> nat {
        self.blob_size as nat
    }

    /// A cursor at the start of an open blob whose size `sqlite3_blob_bytes`
    /// reported; a negative size is an integer conversion error.
    pub fn open(blob_bytes: i32) -> (r: Result<Self, Error>)
        ensures
            blob_bytes >= 0 <==> r is Ok,
            r matches Ok(b) ==> b.is_open() && b.position() == 0 && b.size() == blob_bytes,
            r matches Err(e) ==> e == Error::IntegerConversion,
    {
        if blob_bytes < 0 {
            Err(Error::IntegerConversion)
        } else {
            Ok(SqliteReadOnlyBlob { open: true, read_index: 0, blob_size: blob_bytes as usize })
        }
    }

    /// Whether the blob has no bytes.
    pub fn is_empty(&self) -> (r: bool)
        ensures
            r == (self.size() == 0),
    {
        self.blob_size == 0
    }

    /// The size of the blob in bytes.
    pub fn len(&self) -> (r: usize)
        ensures
            r == self.size(),
    {
        self.blob_size
    }

    /// The position of the next read.
    pub fn read_index(&self) -> (r: usize)
        ensures
            r == self.position(),
    {
        self.read_index
    }

    /// Whether the handle is still open.
    pub fn is_open_now(&self) -> (r: bool)
        ensures
            r == self.is_open(),
    {
        self.open
    }

    /// Plans the next read into a buffer of `buf_len` bytes: at the current
    /// position, as many bytes as the buffer holds and the blob has left.
    /// Fails when the handle is closed, or when the buffer length does not
    /// fit an `i32`.
    pub fn plan_read(&self, buf_len: usize) -> (r: Result<BlobRead, BlobIoError>)
        ensures
            !self.is_open() ==> r == Err::<BlobRead, BlobIoError>(BlobIoError::Closed),
            self.is_open() && buf_len > i32::MAX ==> r == Err::<BlobRead, BlobIoError>(
                BlobIoError::InvalidInput,
            ),
            self.is_open() && buf_len <= i32::MAX ==> (r matches Ok(p) && p.offset == self.position()
                && p.length == (if self.size() - self.position() < buf_len {
                self.size() - self.position()
            } else {
                buf_len as int
            })),
    {
        proof {
            use_type_invariant(self);
        }
        if !self.open {
            return Err(BlobIoError::Closed);
        }
        if buf_len > 0x7fff_ffffusize {
            return Err(BlobIoError::InvalidInput);
        }
        let buflen = buf_len as i32;
        let offset = self.read_index as i32;
        let remaining = (self.blob_size as i32) - offset;
        let length = if remaining < buflen {
            remaining
        } else {
            buflen
        };
        Ok(BlobRead { offset, length })
    }

    /// Records the result of the planned read `plan`: on `SQLITE_OK` the
    /// position moves past the bytes read and their count is returned; any
    /// other result code fails with SQLite's text for it and leaves the
    /// position alone.
    pub fn finish_read(&mut self, plan: BlobRead, code: i32) -> (r: Result<usize, BlobIoError>)
        requires
            old(self).is_open(),
            plan.offset == old(self).position(),
            0 <= plan.length,
            plan.offset + plan.length <= old(self).size(),
        ensures
            final(self).is_open() == old(self).is_open(),
            final(self).size() == old(self).size(),
            code == 0 ==> r == Ok::<usize, BlobIoError>(plan.length as usize) && final(self).position()
                == old(self).position() + plan.length,
            code != 0 ==> final(self).position() == old(self).position() && (r matches Err(
                BlobIoError::Sqlite(m),
            ) && m@ == codes::result_code_text(code)),
    {
        proof {
            use_type_invariant(&*self);
        }
        if code != codes::sqlite_ok() {
            return Err(BlobIoError::Sqlite(String::from_str(codes::error_message(code))));
        }
        let n = plan.length as usize;
        self.read_index = self.read_index + n;
        Ok(n)
    }

    /// Moves the position as `pos` says and returns the new position. A
    /// target past the end stops at the end; a target before the start, or
    /// a number that does not fit, fails with `InvalidInput` and leaves the
    /// position alone.
    pub fn seek(&mut self, pos: BlobSeek) -> (r: Result<u64, BlobIoError>)
        ensures
            final(self).is_open() == old(self).is_open(),
            final(self).size() == old(self).size(),
            (match seek_target(old(self).position() as int, old(self).size() as int, pos) {
                Some(t) => r == Ok::<u64, BlobIoError>(t as u64) && final(self).position() == t,
                None => r == Err::<u64, BlobIoError>(BlobIoError::InvalidInput) && final(self).position()
                    == old(self).position(),
            }),
    {
        proof {
            use_type_invariant(&*self);
        }
        match pos {
            BlobSeek::Start(n) => {
                if n > usize::MAX as u64 {
                    return Err(BlobIoError::InvalidInput);
                }
                let n = n as usize;
                self.read_index = if n < self.blob_size {
                    n
                } else {
                    self.blob_size
                };
            },
            BlobSeek::End(n) => {
                if n > 0 {
                    self.read_index = self.blob_size;
                } else {
                    let back: u64 = if n == i64::MIN {
                        0x8000_0000_0000_0000u64
                    } else {
                        (-n) as u64
                    };
                    if back > self.blob_size as u64 {
                        return Err(BlobIoError::InvalidInput);
                    }
                    self.read_index = self.blob_size - back as usize;
                }
            },
            BlobSeek::Current(n) => {
                if n < isize::MIN as i64 || n > isize::MAX as i64 {
                    return Err(BlobIoError::InvalidInput);
                }
                if n < 0 {
                    let back: u64 = if n == i64::MIN {
                        0x8000_0000_0000_0000u64
                    } else {
                        (-n) as u64
                    };
                    if back > self.read_index as u64 {
                        return Err(BlobIoError::InvalidInput);
                    }
                    self.read_index = self.read_index - back as usize;
                } else {
                    let fwd = n as u64;
                    let remaining = (self.blob_size - self.read_index) as u64;
                    self.read_index = if fwd < remaining {
                        self.read_index + fwd as usize
                    } else {
                        self.blob_size
                    };
                }
            },
        }
        Ok(self.read_index as u64)
    }

    /// Marks the handle closed before `sqlite3_blob_close` is called; fails
    /// if it was closed already, so the handle is closed at most once.
    pub fn begin_close(&mut self) -> (r: Result<(), Error>)
        ensures
            !final(self).is_open(),
            final(self).size() == old(self).size(),
            final(self).position() == old(self).position(),
            old(self).is_open() <==> r is Ok,
            r matches Err(e) ==> e matches Error::ClosingHandle(m) && m@ == "handle already closed"@,
    {
        proof {
            use_type_invariant(&*self);
        }
        if !self.open {
            return Err(Error::ClosingHandle(String::from_str("handle already closed")));
        }
        self.open = false;
        Ok(())
    }
}

/// The outcome of `sqlite3_blob_close`: success on `SQLITE_OK`, otherwise a
/// closing error with SQLite's text for the code.
pub fn close_result(code: i32) -> (r: Result<(), Error>)
    ensures
        code == 0 <==> r is Ok,
        r matches Err(e) ==> e matches Error::ClosingHandle(m) && m@ == codes::result_code_text(code),
{
    if code == codes::sqlite_ok() {
        Ok(())
    } else {
        Err(Error::ClosingHandle(String::from_str(codes::error_message(code))))
    }
}

/// No read or seek moves the position past the end: the next read never
/// starts beyond the blob.
pub proof fn lemma_seek_stays_within_the_blob(index: int, size: int, pos: BlobSeek)
    requires
        0 <= index <= size,
    ensures
        seek_target(index, size, pos) matches Some(t) ==> 0 <= t <= size,
{
}

/// Seeking to the end and then back by the blob's size returns to the start.
pub proof fn lemma_seek_end_then_back(index: int, size: int)
    requires
        0 <= index <= size <= i32::MAX,
    ensures
        seek_target(index, size, BlobSeek::End(0)) == Some(size),
        seek_target(size, size, BlobSeek::Current(-size as i64)) == Some(0int),
{
}

} // verus!
