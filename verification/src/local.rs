//! Reading a local file as text.

use vstd::prelude::*;
use vstd::utf8::{decode_utf8, encode_utf8, encode_utf8_decode_utf8, valid_utf8};
use crate::failure::{invalid_text_message, read_failed_message, FailureKind, RequestFailure};

verus! {

/// Turns bytes into the string that they encode, by `String::from_utf8`.
/// Trusted: there is a string exactly where the bytes are valid UTF-8, and
/// its bytes are the ones given.
#[verifier::external_body]
fn string_of_bytes(bytes: Vec<u8>) -> (text: Option<String>)
    ensures
        text is Some <==> valid_utf8(bytes@),
        text matches Some(t) ==> encode_utf8(t@) == bytes@,
{
    match String::from_utf8(bytes) {
        Ok(text) => Some(text),
        Err(_) => None,
    }
}

/// The text of a local file, given what reading the file gave: its bytes,
/// or the reason why it could not be read. The text is the whole of the
/// file, decoded as UTF-8; bytes that are no UTF-8 are a failure of their own
/// kind.
pub fn local_text(read: Result<Vec<u8>, String>) -> (text: Result<String, RequestFailure>)
    ensures
        match read {
            Err(reason) => text matches Err(failure) && failure.reads(
                FailureKind::LocalIo,
                read_failed_message(reason@),
            ),
            Ok(bytes) => if valid_utf8(bytes@) {
                text matches Ok(t) && t@ == decode_utf8(bytes@)
            } else {
                text matches Err(failure) && failure.reads(
                    FailureKind::Decode,
                    invalid_text_message(),
                )
            },
        },
{
    match read {
        Err(reason) => Err(RequestFailure::read_failed(reason.as_str())),
        Ok(bytes) => match string_of_bytes(bytes) {
            Some(t) => {
                proof {
                    encode_utf8_decode_utf8(t@);
                }
                Ok(t)
            },
            None => Err(RequestFailure::invalid_text()),
        },
    }
}

} // verus!
