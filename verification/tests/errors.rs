use resdet::error::{status_result, RDEINTERNAL, RDEINVAL, RDENOMEM, RDEOK, RDEPARAM, RDETOOBIG, RDEUNSUPP};
use resdet::ResdetError;

#[test]
fn codes_map_to_their_errors() {
    assert_eq!(ResdetError::from(RDENOMEM), ResdetError::OutOfMemory);
    assert_eq!(ResdetError::from(RDEINTERNAL), ResdetError::Internal);
    assert_eq!(ResdetError::from(RDEINVAL), ResdetError::Invalid);
    assert_eq!(ResdetError::from(RDEUNSUPP), ResdetError::Unsupported);
    assert_eq!(ResdetError::from(RDETOOBIG), ResdetError::TooBig);
    assert_eq!(ResdetError::from(RDEPARAM), ResdetError::Param);
}

#[test]
fn unknown_codes_are_kept() {
    assert_eq!(ResdetError::from(RDEOK), ResdetError::Unknown(0));
    assert_eq!(ResdetError::from(7), ResdetError::Unknown(7));
    assert_eq!(ResdetError::from(-1), ResdetError::Unknown(-1));
    assert_eq!(ResdetError::from(i32::MIN), ResdetError::Unknown(i32::MIN));
}

#[test]
fn distinct_codes_give_distinct_errors() {
    for a in -3..10 {
        for b in -3..10 {
            assert_eq!(ResdetError::from(a) == ResdetError::from(b), a == b);
        }
    }
}

#[test]
fn status_ok_only_for_rdeok() {
    assert_eq!(status_result(RDEOK), Ok(()));
    assert_eq!(status_result(RDEPARAM), Err(ResdetError::Param));
    assert_eq!(status_result(42), Err(ResdetError::Unknown(42)));
}

#[test]
fn messages() {
    assert_eq!(ResdetError::OutOfMemory.message(), "Out of memory");
    assert_eq!(ResdetError::Internal.message(), "Internal error");
    assert_eq!(ResdetError::Invalid.message(), "Invalid argument");
    assert_eq!(ResdetError::Unsupported.message(), "Unsupported operation");
    assert_eq!(ResdetError::TooBig.message(), "Image too big");
    assert_eq!(ResdetError::Param.message(), "Invalid parameter");
    assert_eq!(ResdetError::NullPointer.message(), "Null pointer");
    assert_eq!(ResdetError::Utf8Error.message(), "UTF-8 conversion error");
}

#[test]
fn unknown_messages_print_the_code() {
    assert_eq!(ResdetError::Unknown(0).message(), "Unknown error: 0");
    assert_eq!(ResdetError::Unknown(7).message(), "Unknown error: 7");
    assert_eq!(ResdetError::Unknown(1234).message(), "Unknown error: 1234");
    assert_eq!(ResdetError::Unknown(-45).message(), "Unknown error: -45");
    assert_eq!(ResdetError::Unknown(i32::MAX).message(), "Unknown error: 2147483647");
    assert_eq!(ResdetError::Unknown(i32::MIN).message(), "Unknown error: -2147483648");
}

#[test]
fn messages_identify_errors() {
    let errors = [
        ResdetError::OutOfMemory,
        ResdetError::Internal,
        ResdetError::Invalid,
        ResdetError::Unsupported,
        ResdetError::TooBig,
        ResdetError::Param,
        ResdetError::Unknown(0),
        ResdetError::Unknown(-1),
        ResdetError::Unknown(10),
        ResdetError::NullPointer,
        ResdetError::Utf8Error,
    ];
    for a in errors.iter() {
        for b in errors.iter() {
            assert_eq!(a.message() == b.message(), a == b);
        }
    }
}
