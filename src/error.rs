//! The error of the response side.
use prost::DecodeError as ProstDecodeError;
use vstd::prelude::*;

verus! {

#[verifier::external_type_specification]
#[verifier::external_body]
pub struct ExReqwestError(reqwest::Error);

#[verifier::external_type_specification]
#[verifier::external_body]
pub struct ExProstDecodeError(ProstDecodeError);

/// Why a response body could not be turned into a message.
#[derive(Debug)]
pub enum DecodeError {
    /// The body bytes could not be retrieved from the transport.
    Reqwest(reqwest::Error),
    /// The retrieved bytes do not parse as the target message.
    ProstDecode(ProstDecodeError),
}

impl From<reqwest::Error> for DecodeError {
    fn from(x: reqwest::Error) -> (r: DecodeError)
        ensures
            r == DecodeError::Reqwest(x),
    {
        DecodeError::Reqwest(x)
    }
}

impl vstd::std_specs::convert::FromSpecImpl<reqwest::Error> for DecodeError {
    open spec fn obeys_from_spec() -> bool {
        true
    }

    open spec fn from_spec(x: reqwest::Error) -> DecodeError {
        DecodeError::Reqwest(x)
    }
}

impl From<ProstDecodeError> for DecodeError {
    fn from(x: ProstDecodeError) -> (r: DecodeError)
        ensures
            r == DecodeError::ProstDecode(x),
    {
        DecodeError::ProstDecode(x)
    }
}

impl vstd::std_specs::convert::FromSpecImpl<ProstDecodeError> for DecodeError {
    open spec fn obeys_from_spec() -> bool {
        true
    }

    open spec fn from_spec(x: ProstDecodeError) -> DecodeError {
        DecodeError::ProstDecode(x)
    }
}

} // verus!
