//! A small plain-text protocol: a concrete [`Protocol`] whose responses are
//! a status code plus a text body. It gives the adaptation machinery a
//! complete, runnable instantiation.

use vstd::prelude::*;

use crate::protocol::Protocol;

verus! {

/// Status code of a successful call.
pub const STATUS_OK: u16 = 200;

/// Status code rendered for a request that failed decoding: a client error.
pub const STATUS_BAD_REQUEST: u16 = 400;

/// Status code rendered for a business-level failure of the operation.
pub const STATUS_FAULT: u16 = 500;

/// A transport response of the plain-text protocol.
#[derive(Debug, PartialEq, Eq)]
pub struct TextResponse {
    /// The response's status code.
    pub status: u16,
    /// The response's text body.
    pub body: String,
}

/// The plain-text protocol: the operation takes an integer input with a
/// textual context and produces text, and every failure is carried as text.
pub struct TextProtocol;

impl Protocol for TextProtocol {
    type Input = i64;

    type Context = String;

    type DecodeFailure = String;

    type Output = String;

    type Error = String;

    type Response = TextResponse;

    open spec fn encode_output_spec(o: String) -> TextResponse {
        TextResponse { status: STATUS_OK, body: o }
    }

    open spec fn encode_error_spec(e: String) -> TextResponse {
        TextResponse { status: STATUS_FAULT, body: e }
    }

    open spec fn encode_decode_failure_spec(f: String) -> TextResponse {
        TextResponse { status: STATUS_BAD_REQUEST, body: f }
    }

    fn encode_output(o: String) -> TextResponse {
        TextResponse { status: STATUS_OK, body: o }
    }

    fn encode_error(e: String) -> TextResponse {
        TextResponse { status: STATUS_FAULT, body: e }
    }

    fn encode_decode_failure(f: String) -> TextResponse {
        TextResponse { status: STATUS_BAD_REQUEST, body: f }
    }
}

/// Law: in the plain-text protocol, every decode failure is rendered with
/// the client-error status, and carries the failure's own text.
pub proof fn lemma_decode_failure_is_client_error(f: String)
    ensures
        TextProtocol::encode_decode_failure_spec(f).status == STATUS_BAD_REQUEST,
        TextProtocol::encode_decode_failure_spec(f).body == f,
{
}

} // verus!
