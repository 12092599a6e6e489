use vstd::prelude::*;

verus! {

/// The error code the kernel gives for an interrupted call.
pub const EINTR: i32 = 4;

/// The error code for an entry that does not exist.
pub const ENOENT: i32 = 2;

/// The error code for an entry that exists already.
pub const EEXIST: i32 = 17;

/// The error code for an invalid argument.
pub const EINVAL: i32 = 22;

/// The error code for a timed-out operation.
pub const ETIMEDOUT: i32 = 110;

/// What an error code means to a caller.
#[derive(Clone, Copy, PartialEq, Eq, Structural, Debug)]
pub enum ErrorKind {
    TimedOut,
    Interrupted,
    InvalidArgument,
    NotFound,
    AlreadyExists,
    Other,
}

/// The kind that an error code decodes to.
pub open spec fn kind_of(code: i32) -> ErrorKind {
    if code == ETIMEDOUT {
        ErrorKind::TimedOut
    } else if code == EINTR {
        ErrorKind::Interrupted
    } else if code == EINVAL {
        ErrorKind::InvalidArgument
    } else if code == ENOENT {
        ErrorKind::NotFound
    } else if code == EEXIST {
        ErrorKind::AlreadyExists
    } else {
        ErrorKind::Other
    }
}

/// A failed system call: the error code the kernel reported.
#[derive(Clone, Copy, PartialEq, Eq, Structural, Debug)]
pub struct OsError {
    pub code: i32,
}

impl OsError {
    /// The error carrying `code`.
    pub fn from_code(code: i32) -> (r: OsError)
        ensures
            r.code == code,
    {
        OsError { code }
    }

    /// The kernel's error code.
    pub fn raw_os_error(&self) -> (r: i32)
        ensures
            r == self.code,
    {
        self.code
    }

    /// The decoded meaning of the error code.
    pub fn kind(&self) -> (r: ErrorKind)
        ensures
            r == kind_of(self.code),
    {
        if self.code == ETIMEDOUT {
            ErrorKind::TimedOut
        } else if self.code == EINTR {
            ErrorKind::Interrupted
        } else if self.code == EINVAL {
            ErrorKind::InvalidArgument
        } else if self.code == ENOENT {
            ErrorKind::NotFound
        } else if self.code == EEXIST {
            ErrorKind::AlreadyExists
        } else {
            ErrorKind::Other
        }
    }
}

/// Reads the return value of a call that gives a non-negative number on
/// success and a negative one on failure, with `errno` the error code the
/// kernel left.
pub fn check_result(ret: i32, errno: i32) -> (r: Result<i32, OsError>)
    ensures
        r is Ok <==> ret >= 0,
        r matches Ok(v) ==> v == ret,
        r matches Err(e) ==> e.code == errno,
{
    if ret < 0 {
        Err(OsError::from_code(errno))
    } else {
        Ok(ret)
    }
}

/// Reads the return value of a call that gives zero on success and anything
/// else on failure, with `errno` the error code the kernel left.
pub fn check_zero(ret: i32, errno: i32) -> (r: Result<(), OsError>)
    ensures
        r is Ok <==> ret == 0,
        r matches Err(e) ==> e.code == errno,
{
    if ret != 0 {
        Err(OsError::from_code(errno))
    } else {
        Ok(())
    }
}

} // verus!
