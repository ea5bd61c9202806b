//! Errors that libresdet reports, and how its status codes map to them.
use vstd::prelude::*;
use vstd::string::*;
use crate::decimal::{push_signed_decimal, signed_decimal, lemma_signed_decimal_injective};

verus! {

/// Status code: the call succeeded.
pub const RDEOK: i32 = 0;
/// Status code: an allocation failed.
pub const RDENOMEM: i32 = 1;
/// Status code: an internal error.
pub const RDEINTERNAL: i32 = 2;
/// Status code: an argument was invalid.
pub const RDEINVAL: i32 = 3;
/// Status code: the operation is not supported.
pub const RDEUNSUPP: i32 = 4;
/// Status code: the image is too big.
pub const RDETOOBIG: i32 = 5;
/// Status code: a parameter was out of range.
pub const RDEPARAM: i32 = 6;

/// An error of libresdet or of this library.
#[derive(Debug, Clone, Copy, PartialEq, Eq, Structural)]
pub enum ResdetError {
    /// libresdet ran out of memory.
    OutOfMemory,
    /// libresdet failed internally.
    Internal,
    /// An argument was invalid.
    Invalid,
    /// The operation is not supported.
    Unsupported,
    /// The image is too big.
    TooBig,
    /// A parameter was out of range.
    Param,
    /// A status code with no meaning of its own, kept as it came.
    Unknown(i32),
    /// The C side handed back a null pointer where a string was due.
    NullPointer,
    /// A string from the C side was not UTF-8.
    Utf8Error,
}

/// The error that a status code stands for.
pub open spec fn error_of_code(code: i32) -> ResdetError {
    if code == RDENOMEM {
        ResdetError::OutOfMemory
    } else if code == RDEINTERNAL {
        ResdetError::Internal
    } else if code == RDEINVAL {
        ResdetError::Invalid
    } else if code == RDEUNSUPP {
        ResdetError::Unsupported
    } else if code == RDETOOBIG {
        ResdetError::TooBig
    } else if code == RDEPARAM {
        ResdetError::Param
    } else {
        ResdetError::Unknown(code)
    }
}

impl From<i32> for ResdetError {
    fn from(error: i32) -> (res: Self) {
        match error {
            RDENOMEM => ResdetError::OutOfMemory,
            RDEINTERNAL => ResdetError::Internal,
            RDEINVAL => ResdetError::Invalid,
            RDEUNSUPP => ResdetError::Unsupported,
            RDETOOBIG => ResdetError::TooBig,
            RDEPARAM => ResdetError::Param,
            _ => ResdetError::Unknown(error),
        }
    }
}

impl vstd::std_specs::convert::FromSpecImpl<i32> for ResdetError {
    open spec fn obeys_from_spec() -> bool {
        true
    }

    open spec fn from_spec(error: i32) -> Self {
        error_of_code(error)
    }
}

/// What a call that reports `code` comes to: success for `RDEOK`, else the error of the code.
pub open spec fn status_of(code: i32) -> Result<(), ResdetError> {
    if code == RDEOK {
        Ok(())
    } else {
        Err(error_of_code(code))
    }
}

/// Turns the status code of a libresdet call into its result.
pub fn status_result(code: i32) -> (res: Result<(), ResdetError>)
    ensures
        res == status_of(code),
        res is Ok <==> code == 0,
        code != 0 ==> res == Err::<(), ResdetError>(error_of_code(code)),
{
    if code != RDEOK {
        return Err(ResdetError::from(code));
    }
    Ok(())
}

/// The text of an error, as its `Display` shows it.
pub open spec fn error_message(e: ResdetError) -> Seq<char> {
    match e {
        ResdetError::OutOfMemory => "Out of memory"@,
        ResdetError::Internal => "Internal error"@,
        ResdetError::Invalid => "Invalid argument"@,
        ResdetError::Unsupported => "Unsupported operation"@,
        ResdetError::TooBig => "Image too big"@,
        ResdetError::Param => "Invalid parameter"@,
        ResdetError::Unknown(code) => "Unknown error: "@ + signed_decimal(code as int),
        ResdetError::NullPointer => "Null pointer"@,
        ResdetError::Utf8Error => "UTF-8 conversion error"@,
    }
}

impl ResdetError {
    /// The text of this error; for an unknown code it ends with the code in decimal.
    pub fn message(&self) -> (res: String)
        ensures
            res@ == error_message(*self),
    {
        match self {
            ResdetError::OutOfMemory => String::from_str("Out of memory"),
            ResdetError::Internal => String::from_str("Internal error"),
            ResdetError::Invalid => String::from_str("Invalid argument"),
            ResdetError::Unsupported => String::from_str("Unsupported operation"),
            ResdetError::TooBig => String::from_str("Image too big"),
            ResdetError::Param => String::from_str("Invalid parameter"),
            ResdetError::Unknown(code) => {
                let mut text = String::from_str("Unknown error: ");
                push_signed_decimal(&mut text, *code);
                text
            },
            ResdetError::NullPointer => String::from_str("Null pointer"),
            ResdetError::Utf8Error => String::from_str("UTF-8 conversion error"),
        }
    }
}

/// Law: each status code that libresdet defines stands for its own error, and every other
/// code is kept as it came.
pub proof fn lemma_error_of_each_code(code: i32)
    ensures
        code == 1 ==> error_of_code(code) == ResdetError::OutOfMemory,
        code == 2 ==> error_of_code(code) == ResdetError::Internal,
        code == 3 ==> error_of_code(code) == ResdetError::Invalid,
        code == 4 ==> error_of_code(code) == ResdetError::Unsupported,
        code == 5 ==> error_of_code(code) == ResdetError::TooBig,
        code == 6 ==> error_of_code(code) == ResdetError::Param,
        (code < 1 || code > 6) ==> error_of_code(code) == ResdetError::Unknown(code),
{
}

/// Law: a call succeeds exactly when libresdet answers 0 (`RDEOK`); every other answer is a
/// failure, with the error that the code stands for.
pub proof fn lemma_status_fails_unless_ok(code: i32)
    ensures
        status_of(code) is Ok <==> code == 0,
        code != 0 ==> status_of(code) == Err::<(), ResdetError>(error_of_code(code)),
{
}

/// Law: distinct status codes stand for distinct errors, so the error keeps the code.
pub proof fn lemma_error_of_code_injective(a: i32, b: i32)
    requires
        error_of_code(a) == error_of_code(b),
    ensures
        a == b,
{
}

/// Law: the text of an error tells which error it is; distinct errors show distinct texts.
pub proof fn lemma_message_identifies_error(a: ResdetError, b: ResdetError)
    requires
        error_message(a) == error_message(b),
    ensures
        a == b,
{
    reveal_strlit("Out of memory");
    reveal_strlit("Internal error");
    reveal_strlit("Invalid argument");
    reveal_strlit("Unsupported operation");
    reveal_strlit("Image too big");
    reveal_strlit("Invalid parameter");
    reveal_strlit("Unknown error: ");
    reveal_strlit("Null pointer");
    reveal_strlit("UTF-8 conversion error");
    if let (ResdetError::Unknown(x), ResdetError::Unknown(y)) = (a, b) {
        let prefix = "Unknown error: "@;
        assert(error_message(a).subrange(prefix.len() as int, error_message(a).len() as int)
            =~= signed_decimal(x as int));
        assert(error_message(b).subrange(prefix.len() as int, error_message(b).len() as int)
            =~= signed_decimal(y as int));
        lemma_signed_decimal_injective(x as int, y as int);
    } else {
        let ma = error_message(a);
        let mb = error_message(b);
        assert(ma.len() == mb.len());
        assert(ma[0] == mb[0]);
        assert(ma[1] == mb[1]);
        assert(ma[2] == mb[2]);
    }
}

} // verus!
