//! Errors, and the reading of return values of system calls.
use vstd::prelude::*;

verus! {

/// Why an operation on a socket failed.
#[derive(Debug, Clone, Copy, PartialEq, Eq, Structural)]
pub enum Error {
    /// A system call failed and left this number in `errno`.
    Os(i32),
    /// The path begins with a null byte and is longer than the path field of an address.
    AbstractPathTooLong,
    /// The path does not begin with a null byte, and the path field of an address has no room for it
    /// and the null byte behind it.
    PathTooLong,
    /// A timeout of no duration was asked for.
    ZeroTimeout,
    /// The descriptor has an address of another family.
    NotUnixSocket,
}

/// The broad class of an [`Error`].
#[derive(Debug, Clone, Copy, PartialEq, Eq, Structural)]
pub enum ErrorKind {
    /// The operating system reported the error.
    Os,
    /// An argument was not acceptable.
    InvalidInput,
}

impl Error {
    /// The class that an error belongs to.
    pub open spec fn spec_kind(self) -> ErrorKind {
        if self is Os {
            ErrorKind::Os
        } else {
            ErrorKind::InvalidInput
        }
    }

    /// The words for an error that this library raises itself.
    pub open spec fn spec_message(self) -> Option<Seq<char>> {
        match self {
            Error::Os(_) => None,
            Error::AbstractPathTooLong => Some("path must be no longer than SUN_LEN"@),
            Error::PathTooLong => Some("path must be shorter than SUN_LEN"@),
            Error::ZeroTimeout => Some("cannot set a 0 duration timeout"@),
            Error::NotUnixSocket => Some(
                "file descriptor did not correspond to a Unix socket"@,
            ),
        }
    }

    /// Returns the class of the error.
    pub fn kind(&self) -> (kind: ErrorKind)
        ensures
            kind == self.spec_kind(),
            kind is Os <==> *self is Os,
            kind is InvalidInput <==> !(*self is Os),
    {
        match self {
            Error::Os(_) => ErrorKind::Os,
            _ => ErrorKind::InvalidInput,
        }
    }

    /// Returns the words for the error, or `None` where only the operating system has them.
    pub fn message(&self) -> (message: Option<&'static str>)
        ensures
            message is Some <==> self.spec_message() is Some,
            message is Some ==> message->0@ == self.spec_message()->0,
            *self is Os <==> message is None,
            *self is AbstractPathTooLong ==> message->0@ == "path must be no longer than SUN_LEN"@,
            *self is PathTooLong ==> message->0@ == "path must be shorter than SUN_LEN"@,
            *self is ZeroTimeout ==> message->0@ == "cannot set a 0 duration timeout"@,
            *self is NotUnixSocket ==> message->0@
                == "file descriptor did not correspond to a Unix socket"@,
    {
        match self {
            Error::Os(_) => None,
            Error::AbstractPathTooLong => Some("path must be no longer than SUN_LEN"),
            Error::PathTooLong => Some("path must be shorter than SUN_LEN"),
            Error::ZeroTimeout => Some("cannot set a 0 duration timeout"),
            Error::NotUnixSocket => Some("file descriptor did not correspond to a Unix socket"),
        }
    }

    /// Returns the `errno` of an error of the operating system.
    pub fn raw_os_error(&self) -> (code: Option<i32>)
        ensures
            code == (match *self {
                Error::Os(errno) => Some(errno),
                _ => None,
            }),
    {
        match self {
            Error::Os(errno) => Some(*errno),
            _ => None,
        }
    }
}


/// Reads the return value of a system call that returns an `int`.
pub fn cvt(v: i32, errno: i32) -> (r: Result<i32, Error>)
    ensures
        v < 0 ==> r == Err::<i32, Error>(Error::Os(errno)),
        v >= 0 ==> r == Ok::<i32, Error>(v),
{
    if v < 0 {
        Err(Error::Os(errno))
    } else {
        Ok(v)
    }
}

/// Reads the return value of a system call that returns a `ssize_t`.
pub fn cvt_s(v: isize, errno: i32) -> (r: Result<isize, Error>)
    ensures
        v < 0 ==> r == Err::<isize, Error>(Error::Os(errno)),
        v >= 0 ==> r == Ok::<isize, Error>(v),
{
    if v < 0 {
        Err(Error::Os(errno))
    } else {
        Ok(v)
    }
}

/// Errors of the operating system are told apart from those that the library raises, which alone
/// have words of their own, each its own.
pub proof fn law_errors_are_told_apart(e: Error)
    ensures
        e.spec_kind() is Os <==> e is Os,
        e.spec_message() is None <==> e is Os,
        e is AbstractPathTooLong ==> e.spec_message()->0 == "path must be no longer than SUN_LEN"@,
        e is PathTooLong ==> e.spec_message()->0 == "path must be shorter than SUN_LEN"@,
        e is ZeroTimeout ==> e.spec_message()->0 == "cannot set a 0 duration timeout"@,
        e is NotUnixSocket ==> e.spec_message()->0
            == "file descriptor did not correspond to a Unix socket"@,
{
}

} // verus!
