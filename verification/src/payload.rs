//! Encoded payloads: an upload arrives as text that may carry a header in
//! front of a comma, and holds the file's bytes in base64 behind it.

use crate::records::StoreError;
use crate::text::{find_char, first_index_of};
use vstd::prelude::*;
use vstd::string::StrSliceExecFns;

verus! {

/// The error type of the `base64` crate's decoder.
#[verifier::external_type_specification]
#[verifier::external_body]
pub struct ExDecodeError(base64::DecodeError);

/// The bytes that the standard base64 alphabet with padding makes of `text`,
/// or `None` where `text` is no such encoding: what `base64::decode` returns
/// for it.
pub uninterp spec fn base64_decoded(text: Seq<char>) -> Option<Seq<u8>>;

/// Calls `base64::decode`, which decodes with the standard alphabet and
/// canonical padding. The call reads nothing but `text`; the contract gives
/// its result the name `base64_decoded`, with the bytes on success and no
/// more than the fact of failure otherwise.
#[verifier::external_body]
#[allow(deprecated)]
fn base64_decode(text: &str) -> (r: Result<Vec<u8>, base64::DecodeError>)
    ensures
        match r {
            Ok(bytes) => base64_decoded(text@) == Some(bytes@),
            Err(_) => base64_decoded(text@) is None,
        },
{
    base64::decode(text)
}

/// The encoded part of an upload: what follows the first comma, or all of
/// `text` where it holds no comma.
pub open spec fn payload_body(text: Seq<char>) -> Seq<char> {
    match first_index_of(text, ',') {
        Some(i) => text.subrange(i + 1, text.len() as int),
        None => text,
    }
}

/// The encoded part of `file_data`, without the header that may stand in
/// front of its first comma.
pub fn strip_header(file_data: &str) -> (r: &str)
    ensures
        r@ == payload_body(file_data@),
{
    match find_char(file_data, ',') {
        Some(i) => {
            let n = file_data.unicode_len();
            file_data.substring_char(i + 1, n)
        },
        None => file_data,
    }
}

/// What the decoder's answer means for an upload: the bytes, or a decode
/// error whatever the decoder objected to.
pub fn payload_from(decoded: Result<Vec<u8>, base64::DecodeError>) -> (r: Result<
    Vec<u8>,
    StoreError,
>)
    ensures
        match decoded {
            Ok(bytes) => r == Ok::<Vec<u8>, StoreError>(bytes),
            Err(_) => r == Err::<Vec<u8>, StoreError>(StoreError::Decode),
        },
{
    match decoded {
        Ok(bytes) => Ok(bytes),
        Err(_) => Err(StoreError::Decode),
    }
}

/// The bytes of an upload: the header is dropped and the rest decoded. A
/// malformed encoding is a decode error.
pub fn decode_payload(file_data: &str) -> (r: Result<Vec<u8>, StoreError>)
    ensures
        match r {
            Ok(bytes) => base64_decoded(payload_body(file_data@)) == Some(bytes@),
            Err(e) => e == StoreError::Decode && base64_decoded(payload_body(file_data@))
                is None,
        },
{
    let body = strip_header(file_data);
    payload_from(base64_decode(body))
}

} // verus!
