use vstd::prelude::*;

verus! {

/// Why an operation on a semaphore handle failed.
#[derive(Debug, Clone, Copy, PartialEq, Eq, Structural)]
pub enum SemError {
    /// The name holds a nul byte, so it has no nul-terminated form; no call
    /// reached the operating system.
    NameEncoding,
    /// The operating system reported a failure with this error code.
    Os(i32),
}

impl SemError {
    /// The operating system's error code, if the failure came from it.
    pub fn raw_os_error(&self) -> (r: Option<i32>)
        ensures
            r == (match *self {
                SemError::Os(code) => Some(code),
                SemError::NameEncoding => None::<i32>,
            }),
    {
        match *self {
            SemError::Os(code) => Some(code),
            SemError::NameEncoding => None,
        }
    }
}

/// The result of a call that reports failure by a nonzero return value:
/// success on zero, otherwise the error code that came with the failure.
pub fn status_result(ret: i32, errno: i32) -> (r: Result<(), SemError>)
    ensures
        r == (if ret == 0 {
            Ok::<(), SemError>(())
        } else {
            Err(SemError::Os(errno))
        }),
{
    if ret == 0 {
        Ok(())
    } else {
        Err(SemError::Os(errno))
    }
}

/// The result of a call that reports failure by a sentinel value: `failed`
/// says whether the sentinel came back.
pub fn sentinel_result(failed: bool, errno: i32) -> (r: Result<(), SemError>)
    ensures
        r == (if failed {
            Err(SemError::Os(errno))
        } else {
            Ok::<(), SemError>(())
        }),
{
    if failed {
        Err(SemError::Os(errno))
    } else {
        Ok(())
    }
}

} // verus!
