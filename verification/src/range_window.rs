//! Byte windows of ranged reads over native regular files.

use vstd::prelude::*;

use crate::error::LocalError;
use crate::error::LocalErrorKind;
use crate::error::LocalOperation;

verus! {

/// Largest offset a native seek can address.
pub const NATIVE_SEEK_LIMIT: u64 = 0x7fff_ffff_ffff_ffffu64;

/// How a reader is positioned and bounded to serve a byte window.
#[derive(Clone, Copy, Debug, PartialEq, Eq, Structural)]
pub struct RangePlan {
    /// Offset to seek to before reading, if the reader must move.
    pub seek: Option<u64>,
    /// Largest number of bytes to read.
    pub limit: u64,
}

/// Whether a window starts past both the native seek range and the end of
/// the file, so that it can only be empty.
pub open spec fn beyond_native_range(offset: u64, file_len: u64) -> bool {
    offset > NATIVE_SEEK_LIMIT && offset >= file_len
}

/// Plans the window `[offset, offset + length)` of a file of `file_len`
/// bytes; without a length the window runs to the end of the file.
///
/// An empty window, or one that starts past both the native seek range and
/// the end of the file, reads nothing and does not move the reader. Any
/// other window moves the reader unless it starts at zero.
pub fn range_plan(offset: u64, length: Option<u64>, file_len: u64) -> (r: RangePlan)
    ensures
        (length == Some(0u64) || beyond_native_range(offset, file_len)) ==> r == (RangePlan {
            seek: None,
            limit: 0,
        }),
        !(length == Some(0u64) || beyond_native_range(offset, file_len)) ==> {
            &&& r.seek == (if offset != 0 {
                Some(offset)
            } else {
                None
            })
            &&& r.limit == (match length {
                Some(n) => n,
                None => u64::MAX,
            })
        },
{
    let beyond = offset > NATIVE_SEEK_LIMIT && offset >= file_len;
    let empty = match length {
        Some(n) => n == 0,
        None => false,
    };
    if empty || beyond {
        return RangePlan { seek: None, limit: 0 };
    }
    let seek = if offset != 0 {
        Some(offset)
    } else {
        None
    };
    let limit = match length {
        Some(n) => n,
        None => u64::MAX,
    };
    RangePlan { seek, limit }
}

/// The failure reported when positioning a ranged reader fails.
pub fn range_seek_error() -> (r: LocalError)
    ensures
        r.kind == LocalErrorKind::Io,
        r.operation == LocalOperation::OpenReader,
        r.message@ == "local range seek failed"@,
        r.effect is None,
{
    LocalError::new(LocalErrorKind::Io, LocalOperation::OpenReader, "local range seek failed")
}

} // verus!
