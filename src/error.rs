//! Error kinds of the decoder and their native integer codes.
use vstd::prelude::*;

verus! {

/// Error returned by the decoder's operations.
#[derive(Debug, Copy, Clone, PartialEq, Eq, Structural)]
#[non_exhaustive]
pub enum Error {
    /// Try again.
    ///
    /// Returned by `send_data` or `send_pending_data`: decoded frames have to be
    /// retrieved first. Returned by `get_picture`: no decoded frame is ready and
    /// more data has to be sent.
    Again,
    /// One of the arguments was invalid.
    InvalidArgument,
    /// Not enough memory is available for the operation.
    NotEnoughMemory,
    /// The bitstream uses a feature that the decoder does not support.
    UnsupportedBitstream,
    /// Any other native error code, kept as it was.
    UnknownError(i32),
}

/// The platform's errno constants that the native error codes derive from.
#[derive(Debug, Copy, Clone, PartialEq, Eq, Structural)]
pub struct Errno {
    pub perm: i32,
    pub again: i32,
    pub inval: i32,
    pub nomem: i32,
    pub noprotoopt: i32,
}

/// The native (negative) error codes of the four named error kinds.
#[derive(Debug, Copy, Clone, PartialEq, Eq, Structural)]
pub struct ErrorCodes {
    pub again: i32,
    pub inval: i32,
    pub nomem: i32,
    pub noprotoopt: i32,
}

/// Relies on libc's errno constants `EPERM`, `EAGAIN`, `EINVAL`, `ENOMEM` and
/// `ENOPROTOOPT`: on every target that libc defines them for, they are
/// non-zero and share the sign of `EPERM` (positive on most targets, negative
/// on Haiku), and the four error numbers are pairwise distinct.
#[verifier::external_body]
fn platform_errno() -> (r: Errno)
    ensures
        r.perm != 0,
        r.again != 0,
        r.inval != 0,
        r.nomem != 0,
        r.noprotoopt != 0,
        r.perm > 0 <==> r.again > 0,
        r.perm > 0 <==> r.inval > 0,
        r.perm > 0 <==> r.nomem > 0,
        r.perm > 0 <==> r.noprotoopt > 0,
        r.again != r.inval,
        r.again != r.nomem,
        r.again != r.noprotoopt,
        r.inval != r.nomem,
        r.inval != r.noprotoopt,
        r.nomem != r.noprotoopt,
{
    Errno {
        perm: libc::EPERM,
        again: libc::EAGAIN,
        inval: libc::EINVAL,
        nomem: libc::ENOMEM,
        noprotoopt: libc::ENOPROTOOPT,
    }
}

impl Errno {
    /// The errno values of the platform this crate was built for.
    pub fn platform() -> (r: Errno)
        ensures
            r.wf(),
    {
        platform_errno()
    }

    /// All values are non-zero and share the sign of `perm`, and the four
    /// error numbers are pairwise distinct.
    pub open spec fn wf(self) -> bool {
        &&& self.perm != 0
        &&& self.again != 0 && self.inval != 0 && self.nomem != 0 && self.noprotoopt != 0
        &&& (self.perm > 0 <==> self.again > 0)
        &&& (self.perm > 0 <==> self.inval > 0)
        &&& (self.perm > 0 <==> self.nomem > 0)
        &&& (self.perm > 0 <==> self.noprotoopt > 0)
        &&& self.again != self.inval && self.again != self.nomem
        &&& self.again != self.noprotoopt && self.inval != self.nomem
        &&& self.inval != self.noprotoopt && self.nomem != self.noprotoopt
    }
}

/// The native error code for an errno value: the value itself where the
/// platform's errno values are negative, its negation otherwise.
pub open spec fn native_err(errno: int, perm: int) -> int {
    if perm < 0 {
        errno
    } else {
        -errno
    }
}

/// Native error code for an errno value (the native `DAV1D_ERR` macro). Only
/// a value that is negated must not be `i32::MIN`.
pub fn dav1d_err(errno: i32, perm: i32) -> (r: i32)
    requires
        perm >= 0 ==> errno > i32::MIN,
    ensures
        r == native_err(errno as int, perm as int),
        errno != 0 && (perm < 0 <==> errno < 0) ==> r < 0,
{
    if perm < 0 {
        errno
    } else {
        -errno
    }
}

impl ErrorCodes {
    /// All four codes are negative and pairwise distinct.
    pub open spec fn wf(self) -> bool {
        &&& self.again < 0 && self.inval < 0 && self.nomem < 0 && self.noprotoopt < 0
        &&& self.again != self.inval && self.again != self.nomem
        &&& self.again != self.noprotoopt && self.inval != self.nomem
        &&& self.inval != self.noprotoopt && self.nomem != self.noprotoopt
    }

    /// The native codes that follow from the errno values `e`.
    pub fn from_errno(e: Errno) -> (r: ErrorCodes)
        requires
            e.wf(),
        ensures
            r.wf(),
            r.again == native_err(e.again as int, e.perm as int),
            r.inval == native_err(e.inval as int, e.perm as int),
            r.nomem == native_err(e.nomem as int, e.perm as int),
            r.noprotoopt == native_err(e.noprotoopt as int, e.perm as int),
    {
        ErrorCodes {
            again: dav1d_err(e.again, e.perm),
            inval: dav1d_err(e.inval, e.perm),
            nomem: dav1d_err(e.nomem, e.perm),
            noprotoopt: dav1d_err(e.noprotoopt, e.perm),
        }
    }

    /// The native codes of the platform this crate was built for.
    pub fn native() -> (r: ErrorCodes)
        ensures
            r.wf(),
    {
        ErrorCodes::from_errno(Errno::platform())
    }
}

impl Error {
    /// The error kind of the negative native code `code`.
    pub open spec fn spec_from_code(code: int, c: ErrorCodes) -> Error {
        if code == c.again {
            Error::Again
        } else if code == c.inval {
            Error::InvalidArgument
        } else if code == c.nomem {
            Error::NotEnoughMemory
        } else if code == c.noprotoopt {
            Error::UnsupportedBitstream
        } else {
            Error::UnknownError(code as i32)
        }
    }

    /// The native code of an error kind.
    pub open spec fn spec_to_code(self, c: ErrorCodes) -> int {
        match self {
            Error::Again => c.again as int,
            Error::InvalidArgument => c.inval as int,
            Error::NotEnoughMemory => c.nomem as int,
            Error::UnsupportedBitstream => c.noprotoopt as int,
            Error::UnknownError(code) => code as int,
        }
    }

    /// An error that has a native code: an `UnknownError` must hold a negative
    /// code that is none of the four named ones.
    pub open spec fn is_native(self, c: ErrorCodes) -> bool {
        match self {
            Error::UnknownError(code) => code < 0 && code != c.again && code != c.inval
                && code != c.nomem && code != c.noprotoopt,
            _ => true,
        }
    }

    /// The error kind of a negative native error code.
    pub fn from_code(code: i32, codes: &ErrorCodes) -> (r: Error)
        requires
            code < 0,
        ensures
            r == Error::spec_from_code(code as int, *codes),
    {
        if code == codes.again {
            Error::Again
        } else if code == codes.inval {
            Error::InvalidArgument
        } else if code == codes.nomem {
            Error::NotEnoughMemory
        } else if code == codes.noprotoopt {
            Error::UnsupportedBitstream
        } else {
            Error::UnknownError(code)
        }
    }

    /// The native code to hand back for this error; an `UnknownError` gives
    /// back the code it holds.
    pub fn to_code(&self, codes: &ErrorCodes) -> (r: i32)
        requires
            self matches Error::UnknownError(code) ==> code < 0,
        ensures
            r == self.spec_to_code(*codes),
            r < 0 <== codes.wf(),
    {
        match self {
            Error::Again => codes.again,
            Error::InvalidArgument => codes.inval,
            Error::NotEnoughMemory => codes.nomem,
            Error::UnsupportedBitstream => codes.noprotoopt,
            Error::UnknownError(code) => *code,
        }
    }

    /// Whether this is `Error::Again`.
    pub fn is_again(&self) -> (r: bool)
        ensures
            r <==> *self == Error::Again,
    {
        matches!(self, Error::Again)
    }

    /// Human-readable text of the error kind; the code of an `UnknownError` is
    /// not part of it.
    pub fn description(&self) -> (r: &'static str)
        ensures
            *self == Error::Again ==> r@ == "Try again"@,
            *self == Error::InvalidArgument ==> r@ == "Invalid argument"@,
            *self == Error::NotEnoughMemory ==> r@ == "Not enough memory available"@,
            *self == Error::UnsupportedBitstream ==> r@ == "Unsupported bitstream"@,
            *self is UnknownError ==> r@ == "Unknown error"@,
    {
        proof {
            reveal_strlit("Try again");
            reveal_strlit("Invalid argument");
            reveal_strlit("Not enough memory available");
            reveal_strlit("Unsupported bitstream");
            reveal_strlit("Unknown error");
        }
        match self {
            Error::Again => "Try again",
            Error::InvalidArgument => "Invalid argument",
            Error::NotEnoughMemory => "Not enough memory available",
            Error::UnsupportedBitstream => "Unsupported bitstream",
            Error::UnknownError(_) => "Unknown error",
        }
    }
}

/// Mapping a negative native code to an error and the error back to a code gives
/// the same code.
pub proof fn lemma_code_round_trip(code: i32, codes: ErrorCodes)
    requires
        code < 0,
    ensures
        Error::spec_from_code(code as int, codes).spec_to_code(codes) == code as int,
        Error::spec_from_code(code as int, codes).is_native(codes),
{
}

/// Every error with a native code maps back to itself.
pub proof fn lemma_error_round_trip(e: Error, codes: ErrorCodes)
    requires
        codes.wf(),
        e.is_native(codes),
    ensures
        Error::spec_from_code(e.spec_to_code(codes), codes) == e,
{
}

} // verus!
