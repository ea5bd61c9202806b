//! Strings that cross into and out of libresdet as NUL-terminated C strings.
use vstd::prelude::*;
use vstd::utf8::*;
use vstd::string::*;
use crate::error::ResdetError;

verus! {

/// True when `bytes` holds a NUL byte, which a C string cannot carry.
pub open spec fn contains_nul(bytes: Seq<u8>) -> bool {
    bytes.contains(0u8)
}

/// What a C reader sees of a buffer: the bytes before its first NUL (all of them when there is none).
pub open spec fn c_string_contents(buf: Seq<u8>) -> Seq<u8>
    decreases buf.len(),
{
    if buf.len() == 0 || buf[0] == 0 {
        Seq::empty()
    } else {
        seq![buf[0]] + c_string_contents(buf.drop_first())
    }
}

/// What decoding a C string comes to: `NullPointer` when there was no string, the decoded
/// characters when its bytes are UTF-8, else `Utf8Error`.
pub open spec fn decoded_c_string(raw: Option<Seq<u8>>) -> Result<Seq<char>, ResdetError> {
    match raw {
        None => Err(ResdetError::NullPointer),
        Some(bytes) => if valid_utf8(bytes) {
            Ok(decode_utf8(bytes))
        } else {
            Err(ResdetError::Utf8Error)
        },
    }
}

/// The view of an optional byte buffer.
pub open spec fn bytes_view(raw: Option<Vec<u8>>) -> Option<Seq<u8>> {
    match raw {
        None => None,
        Some(v) => Some(v@),
    }
}

/// The view of a string result.
pub open spec fn string_result_view(res: Result<String, ResdetError>) -> Result<Seq<char>, ResdetError> {
    match res {
        Ok(s) => Ok(s@),
        Err(e) => Err(e),
    }
}

/// Law: a null string is `NullPointer`; bytes that are UTF-8 decode to the characters they
/// encode; any other bytes are `Utf8Error`.
pub proof fn lemma_decoded_c_string_cases(raw: Option<Seq<u8>>)
    ensures
        raw is None ==> decoded_c_string(raw) == Err::<Seq<char>, ResdetError>(ResdetError::NullPointer),
        raw is Some && valid_utf8(raw->0) ==> decoded_c_string(raw) == Ok::<Seq<char>, ResdetError>(decode_utf8(raw->0)),
        raw is Some && !valid_utf8(raw->0) ==> decoded_c_string(raw) == Err::<Seq<char>, ResdetError>(ResdetError::Utf8Error),
{
}

/// Calls std's `String::from_utf8`. As its documentation says, it succeeds exactly when the
/// bytes are valid UTF-8, and the string then holds the characters they encode.
#[verifier::external_body]
fn string_from_utf8(bytes: Vec<u8>) -> (res: Option<String>)
    ensures
        res is Some <==> valid_utf8(bytes@),
        res matches Some(s) ==> s@ == decode_utf8(bytes@),
{
    String::from_utf8(bytes).ok()
}

/// Turns the bytes of a C string into a `String`. `raw` is `None` where the C side handed
/// back a null pointer, else the bytes before the terminating NUL.
pub fn decode_c_string(raw: Option<Vec<u8>>) -> (res: Result<String, ResdetError>)
    ensures
        string_result_view(res) == decoded_c_string(bytes_view(raw)),
{
    match raw {
        None => Err(ResdetError::NullPointer),
        Some(bytes) => match string_from_utf8(bytes) {
            Some(text) => Ok(text),
            None => Err(ResdetError::Utf8Error),
        },
    }
}

/// The NUL-terminated bytes of `name`, as the C side takes a name; `Invalid` when `name`
/// itself holds a NUL byte.
pub fn c_name(name: &str) -> (res: Result<Vec<u8>, ResdetError>)
    ensures
        contains_nul(name.spec_bytes()) ==> res == Err::<Vec<u8>, ResdetError>(ResdetError::Invalid),
        !contains_nul(name.spec_bytes()) ==> (res matches Ok(v) && v@ == name.spec_bytes().push(0u8)),
{
    let bytes = name.as_bytes();
    let mut out: Vec<u8> = Vec::new();
    let mut i: usize = 0;
    while i < bytes.len()
        invariant
            i <= bytes@.len(),
            bytes@ == name.spec_bytes(),
            out@ == bytes@.subrange(0, i as int),
            forall|j: int| 0 <= j < i ==> bytes@[j] != 0u8,
        decreases bytes@.len() - i,
    {
        if bytes[i] == 0 {
            assert(bytes@[i as int] == 0u8);
            return Err(ResdetError::Invalid);
        }
        out.push(bytes[i]);
        i = i + 1;
        assert(out@ =~= bytes@.subrange(0, i as int));
    }
    assert(out@ =~= bytes@);
    assert(!contains_nul(name.spec_bytes())) by {
        if contains_nul(name.spec_bytes()) {
            let k = choose|k: int| 0 <= k < bytes@.len() && bytes@[k] == 0u8;
            assert(bytes@[k] != 0u8);
        }
    }
    out.push(0u8);
    Ok(out)
}

/// Reading back a NUL-free buffer after its terminator gives the buffer itself.
proof fn lemma_contents_of_terminated(bytes: Seq<u8>)
    requires
        !contains_nul(bytes),
    ensures
        c_string_contents(bytes.push(0u8)) == bytes,
    decreases bytes.len(),
{
    if bytes.len() == 0 {
        assert(bytes.push(0u8)[0] == 0u8);
    } else {
        let rest = bytes.drop_first();
        assert(!contains_nul(rest)) by {
            if rest.contains(0u8) {
                let k = choose|k: int| 0 <= k < rest.len() && rest[k] == 0u8;
                assert(bytes[k + 1] == 0u8);
            }
        }
        lemma_contents_of_terminated(rest);
        assert(bytes.push(0u8).drop_first() =~= rest.push(0u8));
        assert(bytes[0] != 0u8) by {
            if bytes[0] == 0u8 {
                assert(bytes.contains(0u8));
            }
        }
        assert(bytes =~= seq![bytes[0]] + rest);
    }
}

/// Law: a name that `c_name` accepts comes back unchanged through the C side. The buffer that
/// `c_name` builds reads back as the name's bytes, and decoding those bytes with
/// `decode_c_string` gives back the name.
pub proof fn lemma_c_name_round_trip(name: &str)
    requires
        !contains_nul(name.spec_bytes()),
    ensures
        c_string_contents(name.spec_bytes().push(0u8)) == name.spec_bytes(),
        decoded_c_string(Some(name.spec_bytes())) == Ok::<Seq<char>, ResdetError>(name@),
{
    lemma_contents_of_terminated(name.spec_bytes());
    encode_utf8_valid_utf8(name@);
    encode_utf8_decode_utf8(name@);
}

} // verus!
