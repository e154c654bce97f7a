//! The errors of the mapping core.

use vstd::prelude::*;

verus! {

/// Why a request was refused, or why the operating system failed a call.
///
/// The first three are input errors: they are found before any system call
/// is made. The last carries the operating system's error number unchanged.
#[derive(Clone, Copy, Debug, PartialEq, Eq, Structural)]
pub enum MapError {
    /// The mapping would have no bytes.
    ZeroLength,
    /// The length inferred from the file's size does not fit in a `usize`.
    LengthOverflow,
    /// The flush window reaches past the end of the region.
    OutOfRange,
    /// A system call failed with this error number.
    Os(i32),
}

/// What a system call that answers 0 on success has come to: `ret` is its
/// return value, `errno` the error number read right after it.
pub open spec fn completion(ret: i32, errno: i32) -> Result<(), MapError> {
    if ret == 0 {
        Ok(())
    } else {
        Err(MapError::Os(errno))
    }
}

/// Turns the return value of `msync`, `mprotect`, `mlock`, `munlock` or
/// `munmap` into a result. Nothing is retried and nothing is swallowed: any
/// return value but 0 surfaces as the error number it came with.
pub fn completed(ret: i32, errno: i32) -> (r: Result<(), MapError>)
    ensures
        r == completion(ret, errno),
{
    if ret == 0 {
        Ok(())
    } else {
        Err(MapError::Os(errno))
    }
}

} // verus!
