//! What comes back from the service, and the result a caller gets from it.
use crate::error::LlmError;
use crate::wire::{decimal, push_decimal};
use vstd::prelude::*;
use vstd::string::*;

verus! {

#[verifier::external_type_specification]
#[verifier::external_body]
pub struct ExReqwestError(reqwest::Error);

/// Relies on the `Display` of reqwest's `Error`: every kind of error writes a
/// non-empty description.
#[verifier::external_body]
fn error_text(e: &reqwest::Error) -> (r: String)
    ensures
        r@.len() > 0,
{
    e.to_string()
}

/// Token counts of an inference call.
#[derive(Debug, Clone, PartialEq)]
pub struct InferencingUsage {
    pub prompt_token_count: u32,
    pub generated_token_count: u32,
}

/// The generated text and its token counts.
#[derive(Debug, Clone, PartialEq)]
pub struct InferencingResult {
    pub text: String,
    pub usage: InferencingUsage,
}

/// Token count of an embedding call.
#[derive(Debug, Clone, PartialEq)]
pub struct EmbeddingsUsage {
    pub prompt_token_count: u32,
}

/// One vector per input text, in input order, with the token count.
#[derive(Debug, Clone, PartialEq)]
pub struct EmbeddingsResult<T> {
    pub embeddings: Vec<Vec<T>>,
    pub usage: EmbeddingsUsage,
}

/// How a posted request ended.
#[derive(Debug)]
pub enum Reply<T> {
    /// A response arrived and its body decoded to a value.
    Decoded(T),
    /// A response arrived with a status other than 200; its body was not read.
    BadStatus(u16),
    /// A response arrived but its body did not decode; the detail says why.
    DecodeFailed(String),
    /// No response arrived; the detail says why.
    TransportFailed(String),
}

pub open spec fn decode_prefix() -> Seq<char> {
    "failed to deserialize response: "@
}

pub open spec fn status_prefix() -> Seq<char> {
    "unexpected response status: "@
}

/// Whether a response with this status is read as a success: only 200 is.
pub fn accepts_status(status: u16) -> (r: bool)
    ensures
        r == (status == 200),
{
    status == 200
}

/// The error a reply turns into, as `view_parts` gives it; `None` for a
/// decoded body.
pub open spec fn reply_error<T>(reply: Reply<T>) -> Option<(bool, Seq<char>)> {
    match reply {
        Reply::Decoded(_) => None,
        Reply::BadStatus(c) => Some((false, status_prefix() + decimal(c as nat))),
        Reply::DecodeFailed(d) => Some((false, decode_prefix() + d@)),
        Reply::TransportFailed(d) => Some((false, d@)),
    }
}

impl<T> Reply<T> {
    /// A request that could not be sent, described by the transport's error.
    pub fn transport_failed(e: &reqwest::Error) -> (r: Self)
        ensures
            r matches Reply::TransportFailed(d) && d@.len() > 0,
    {
        Reply::TransportFailed(error_text(e))
    }

    /// A response whose body could not be decoded, described by the error.
    pub fn decode_failed(e: &reqwest::Error) -> (r: Self)
        ensures
            r matches Reply::DecodeFailed(d) && d@.len() > 0,
    {
        Reply::DecodeFailed(error_text(e))
    }
}

/// The caller's result for a reply: the decoded value unchanged, or a
/// runtime error whose detail is the transport's description, the status
/// after `unexpected response status: `, or the decoder's description after
/// `failed to deserialize response: `.
pub fn finish_reply<T>(reply: Reply<T>) -> (r: Result<T, LlmError>)
    ensures
        r is Ok <==> reply is Decoded,
        reply matches Reply::Decoded(v) ==> r == Ok::<T, LlmError>(v),
        r matches Err(e) ==> reply_error(reply) == Some(e.view_parts()),
{
    match reply {
        Reply::Decoded(v) => Ok(v),
        Reply::BadStatus(c) => {
            let mut detail = String::from_str("unexpected response status: ");
            push_decimal(&mut detail, c as u32);
            Err(LlmError::RuntimeError(detail))
        },
        Reply::DecodeFailed(d) => {
            let mut detail = String::from_str("failed to deserialize response: ");
            detail.append(d.as_str());
            Err(LlmError::RuntimeError(detail))
        },
        Reply::TransportFailed(d) => Err(LlmError::RuntimeError(d)),
    }
}

/// A transport failure is never swallowed: it comes back as a runtime error
/// whose detail is the transport's own description, not empty.
pub proof fn lemma_transport_failure_surfaces<T>(reply: Reply<T>)
    requires
        reply matches Reply::TransportFailed(d) && d@.len() > 0,
    ensures
        reply_error(reply) matches Some(p) && !p.0 && p.1.len() > 0,
{
}

/// A response with a status other than 200 never yields a result, whatever
/// its body: it comes back as a runtime error that names the status.
pub proof fn lemma_bad_status_is_error<T>(reply: Reply<T>)
    requires
        reply is BadStatus,
    ensures
        reply_error(reply) matches Some(p) && !p.0 && p.1.subrange(0, status_prefix().len() as int)
            == status_prefix(),
{
    let p = reply_error(reply)->Some_0.1;
    assert(p.subrange(0, status_prefix().len() as int) =~= status_prefix());
}

/// A body that does not decode never yields a result: it comes back as a
/// runtime error that names the decoding failure.
pub proof fn lemma_decode_failure_is_error<T>(reply: Reply<T>)
    requires
        reply is DecodeFailed,
    ensures
        reply_error(reply) matches Some(p) && !p.0 && p.1.subrange(0, decode_prefix().len() as int) == decode_prefix(),
{
    let p = reply_error(reply)->Some_0.1;
    assert(p.subrange(0, decode_prefix().len() as int) =~= decode_prefix());
}

} // verus!
