use dav1d::{Errno, Error, ErrorCodes};

fn linux_codes() -> ErrorCodes {
    ErrorCodes { again: -11, inval: -22, nomem: -12, noprotoopt: -92 }
}

#[test]
fn from_code_maps_each_kind() {
    let c = linux_codes();
    assert_eq!(Error::from_code(-11, &c), Error::Again);
    assert_eq!(Error::from_code(-22, &c), Error::InvalidArgument);
    assert_eq!(Error::from_code(-12, &c), Error::NotEnoughMemory);
    assert_eq!(Error::from_code(-92, &c), Error::UnsupportedBitstream);
    assert_eq!(Error::from_code(-5, &c), Error::UnknownError(-5));
}

#[test]
fn to_code_reverses_from_code() {
    let c = linux_codes();
    for code in [-11, -22, -12, -92, -1, -1000, i32::MIN] {
        assert_eq!(Error::from_code(code, &c).to_code(&c), code);
    }
    assert_eq!(Error::UnknownError(-7).to_code(&c), -7);
}

#[test]
fn is_again_only_for_again() {
    assert!(Error::Again.is_again());
    assert!(!Error::InvalidArgument.is_again());
    assert!(!Error::UnknownError(-11).is_again());
}

#[test]
fn error_descriptions() {
    assert_eq!(Error::Again.description(), "Try again");
    assert_eq!(Error::InvalidArgument.description(), "Invalid argument");
    assert_eq!(Error::NotEnoughMemory.description(), "Not enough memory available");
    assert_eq!(Error::UnsupportedBitstream.description(), "Unsupported bitstream");
    assert_eq!(Error::UnknownError(-3).description(), "Unknown error");
}

#[test]
fn errno_sign_is_normalised() {
    let positive = Errno { perm: 1, again: 11, inval: 22, nomem: 12, noprotoopt: 92 };
    assert_eq!(ErrorCodes::from_errno(positive), linux_codes());
    let negative = Errno { perm: -1, again: -11, inval: -22, nomem: -12, noprotoopt: -92 };
    assert_eq!(ErrorCodes::from_errno(negative), linux_codes());
    assert_eq!(dav1d::error::dav1d_err(11, 1), -11);
    assert_eq!(dav1d::error::dav1d_err(-11, -1), -11);
}

#[test]
fn native_codes_are_negated_errno_values() {
    let e = Errno::platform();
    let c = ErrorCodes::native();
    let codes = [c.again, c.inval, c.nomem, c.noprotoopt];
    for (i, a) in codes.iter().enumerate() {
        assert!(*a < 0);
        for b in &codes[i + 1..] {
            assert_ne!(a, b);
        }
    }
    if e.perm > 0 {
        assert_eq!(c.again, -e.again);
        assert_eq!(c.nomem, -e.nomem);
    } else {
        assert_eq!(c.again, e.again);
        assert_eq!(c.nomem, e.nomem);
    }
}

#[test]
fn negative_errno_platforms_keep_their_codes() {
    assert_eq!(dav1d::error::dav1d_err(i32::MIN, -1), i32::MIN);
    let haiku_like = Errno { perm: -1, again: -11, inval: -22, nomem: i32::MIN, noprotoopt: -92 };
    let c = ErrorCodes::from_errno(haiku_like);
    assert_eq!(c.nomem, i32::MIN);
    assert_eq!(Error::from_code(i32::MIN, &c), Error::NotEnoughMemory);
}
