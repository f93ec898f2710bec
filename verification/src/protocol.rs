//! The pluggable wire-protocol strategy.
//!
//! A protocol fixes the types that one operation exchanges with the wire and
//! the synchronous encoding rules that turn each terminal outcome of a call
//! into a transport response. Decoding a transport request is asynchronous
//! and driven from outside; it is therefore not part of this trait, and its
//! result reaches the execution state machine as an event.

use vstd::prelude::*;

verus! {

/// The encoding rules of a wire protocol, for one operation shape.
///
/// Every value that can end a call — a decode failure, a business failure,
/// or a success value — is convertible to a transport response, and each
/// exec encoder is pinned to its spec-level counterpart, so callers can
/// state exactly which response a call produces.
pub trait Protocol {
    /// The operation's typed input, decoded from the request body.
    type Input;

    /// Context extracted from the non-body parts of the request.
    type Context;

    /// A failure of decoding; always convertible to a response.
    type DecodeFailure;

    /// The operation's typed output.
    type Output;

    /// The operation's business-level failure value.
    type Error;

    /// The transport response type.
    type Response;

    /// The response that encodes a success value.
    spec fn encode_output_spec(o: Self::Output) -> Self::Response;

    /// The response that encodes a business failure.
    spec fn encode_error_spec(e: Self::Error) -> Self::Response;

    /// The response that encodes a decode failure.
    spec fn encode_decode_failure_spec(f: Self::DecodeFailure) -> Self::Response;

    /// Encodes a success value as a transport response.
    fn encode_output(o: Self::Output) -> (r: Self::Response)
        ensures
            r == Self::encode_output_spec(o),
    ;

    /// Encodes a business failure as a transport response.
    fn encode_error(e: Self::Error) -> (r: Self::Response)
        ensures
            r == Self::encode_error_spec(e),
    ;

    /// Encodes a decode failure as a transport response.
    fn encode_decode_failure(f: Self::DecodeFailure) -> (r: Self::Response)
        ensures
            r == Self::encode_decode_failure_spec(f),
    ;
}

} // verus!
