//! Texts that the engine hands out: byte strings that may be absent and
//! need not be UTF-8.

use vstd::prelude::*;
use vstd::string::StringSliceAdditionalSpecFns;
use vstd::utf8::valid_utf8;

verus! {

/// `core::str::Utf8Error`, which says why some bytes are no UTF-8. It is
/// handed on as it comes, and nothing is read from it.
#[verifier::external_type_specification]
#[verifier::external_body]
pub struct ExUtf8Error(core::str::Utf8Error);

/// `core::str::from_utf8`: the bytes as a string slice where they are valid
/// UTF-8, and an error where they are not.
#[verifier::external_body]
pub(crate) fn str_from_utf8(bytes: &[u8]) -> (r: Result<&str, core::str::Utf8Error>)
    ensures
        r is Ok <==> valid_utf8(bytes@),
        r matches Ok(text) ==> text.spec_bytes() == bytes@,
{
    core::str::from_utf8(bytes)
}

/// A text of the engine as a string slice: the same bytes where there is a
/// text and it is valid UTF-8; an error without a cause where there is no
/// text, and with the cause where the text is not valid UTF-8.
pub fn text_of(raw: Option<&[u8]>) -> (r: Result<&str, Option<core::str::Utf8Error>>)
    ensures
        r is Ok <==> (raw matches Some(bytes) && valid_utf8(bytes@)),
        r matches Ok(text) ==> text.spec_bytes() == raw->Some_0@,
        r matches Err(cause) ==> (cause is None <==> raw is None),
{
    match raw {
        None => Err(None),
        Some(bytes) => match str_from_utf8(bytes) {
            Ok(text) => Ok(text),
            Err(cause) => Err(Some(cause)),
        },
    }
}

} // verus!
