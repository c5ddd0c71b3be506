//! The envelopes the service wraps its answers in, and the rule that turns
//! a decoded envelope into a result or an error.

use vstd::prelude::*;

use crate::error::ClientError;

verus! {

/// The envelope of a read: a status code, the payload, the API version.
#[derive(Clone, Debug, PartialEq, Eq)]
pub struct Response<T> {
    pub code: usize,
    pub data: T,
    pub version: usize,
}

/// A list payload together with the tag that says what kind of list it is.
#[derive(Clone, Debug, PartialEq, Eq)]
pub struct Data<T> {
    pub _type: String,
    pub data: T,
}

/// The acknowledgment of an update: a status code, a message, the API
/// version. Failures of any endpoint arrive in this shape too.
#[derive(Clone, Debug, PartialEq, Eq)]
pub struct ResponseUpdate {
    pub code: usize,
    pub message: String,
    pub version: usize,
}

/// The codes that report success.
pub open spec fn is_success(code: usize) -> bool {
    200 <= code < 300
}

/// Whether a code reports success.
pub fn is_success_code(code: usize) -> (ok: bool)
    ensures
        ok == is_success(code),
{
    200 <= code && code < 300
}

/// What a caller receives for an update: the acknowledgment as it came,
/// whatever its code, or a deserialization error with the decoder's words
/// where the body did not decode.
pub open spec fn settled_update(parsed: Result<ResponseUpdate, String>) -> Result<
    ResponseUpdate,
    ClientError,
> {
    match parsed {
        Ok(ack) => Ok(ack),
        Err(detail) => Err(ClientError::Deserialize(detail)),
    }
}

/// Decides what an update call returns, given the outcome of decoding the
/// body as a [`ResponseUpdate`]. A refusal by the service is an
/// acknowledgment like any other: the caller reads its code and message.
pub fn settle_update(parsed: Result<ResponseUpdate, String>) -> (r: Result<
    ResponseUpdate,
    ClientError,
>)
    ensures
        r == settled_update(parsed),
{
    match parsed {
        Ok(ack) => Ok(ack),
        Err(detail) => Err(ClientError::Deserialize(detail)),
    }
}

/// What a caller receives for a read. `parsed` is the outcome of decoding
/// the body as the expected envelope, `failure` the outcome of decoding it
/// as a code-and-message envelope.
///
/// - A decoded envelope is the result as it came, whatever its code.
/// - A body that did not decode as expected, but does carry a non-success
///   code and a message, is an application error with the code, the message
///   and the version of that body.
/// - Anything else is a deserialization error with the decoder's words.
pub open spec fn settled<T>(
    parsed: Result<Response<T>, String>,
    failure: Option<ResponseUpdate>,
) -> Result<Response<T>, ClientError> {
    match parsed {
        Ok(envelope) => Ok(envelope),
        Err(detail) => match failure {
            Some(f) => if is_success(f.code) {
                Err(ClientError::Deserialize(detail))
            } else {
                Err(
                    ClientError::Application {
                        code: f.code,
                        message: f.message,
                        version: f.version,
                    },
                )
            },
            None => Err(ClientError::Deserialize(detail)),
        },
    }
}

/// Decides what a read returns, as [`settled`] says.
pub fn settle<T>(parsed: Result<Response<T>, String>, failure: Option<ResponseUpdate>) -> (r:
    Result<Response<T>, ClientError>)
    ensures
        r == settled(parsed, failure),
{
    match parsed {
        Ok(envelope) => Ok(envelope),
        Err(detail) => match failure {
            Some(f) => if is_success_code(f.code) {
                Err(ClientError::Deserialize(detail))
            } else {
                Err(
                    ClientError::Application {
                        code: f.code,
                        message: f.message,
                        version: f.version,
                    },
                )
            },
            None => Err(ClientError::Deserialize(detail)),
        },
    }
}

} // verus!
