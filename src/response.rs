//! The response side: turn the retrieved body into a typed message.
use prost::DecodeError as ProstDecodeError;
use prost::Message;
use vstd::prelude::*;

use crate::error::DecodeError;

verus! {

/// Relies on prost's `Message::decode`: it merges the fields found in the
/// bytes into a default instance, or reports why the bytes do not parse.
#[verifier::external_body]
fn decode_message<T: Message + Default>(bytes: &[u8]) -> (r: Result<T, ProstDecodeError>) {
    T::decode(bytes)
}

/// Maps the outcome of a decode into the library's error: a parse error is
/// carried as `ProstDecode`, a message comes back as it is.
pub fn decode_outcome<T>(decoded: Result<T, ProstDecodeError>) -> (r: Result<T, DecodeError>)
    ensures
        match decoded {
            Ok(m) => r == Ok::<T, DecodeError>(m),
            Err(e) => r == Err::<T, DecodeError>(DecodeError::ProstDecode(e)),
        },
{
    match decoded {
        Ok(m) => Ok(m),
        Err(e) => Err(DecodeError::from(e)),
    }
}

/// Decodes a retrieved response body into a message of type `T`.
///
/// A transport failure comes back as `Reqwest`, carrying the transport's
/// error unchanged, and no bytes are parsed; otherwise the bytes are decoded
/// once, and a parse failure comes back as `ProstDecode`.
pub fn decode_body<T: Message + Default>(body: Result<Vec<u8>, reqwest::Error>) -> (r: Result<
    T,
    DecodeError,
>)
    ensures
        match body {
            Err(e) => r == Err::<T, DecodeError>(DecodeError::Reqwest(e)),
            Ok(_) => r is Ok || r->Err_0 is ProstDecode,
        },
{
    match body {
        Err(e) => Err(DecodeError::from(e)),
        Ok(bytes) => decode_outcome(decode_message(bytes.as_slice())),
    }
}

} // verus!
