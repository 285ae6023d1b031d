//! What the guest asks of its host.
//!
//! The host's primitives take bytes from the guest's memory. This module
//! decides which primitive is called and with which bytes; making the call is
//! left to the code that holds the host's functions.

use crate::error::EncodeError;
use crate::failure::{failure_text, Failure, FailureView};
use crate::log::{level_code, LogLevel};
use crate::payload::{payload_text, Payload};
use vstd::prelude::*;

verus! {

/// One call of a primitive of the host.
#[derive(Debug)]
pub enum HostCall {
    /// `complete`, with the JSON text of the result's envelope, or with
    /// nothing where the invocation has no result.
    Complete(Option<Vec<u8>>),
    /// `complete_with_failure`, with the JSON text of the failure's envelope.
    CompleteWithFailure(Vec<u8>),
    /// `write_log`, with the number of the level and the bytes of the
    /// message.
    WriteLog(u32, Vec<u8>),
}

/// What a call hands to the host.
pub enum HostCallView {
    Complete(Option<Seq<u8>>),
    CompleteWithFailure(Seq<u8>),
    WriteLog(u32, Seq<u8>),
}

impl View for HostCall {
    type V = HostCallView;

    open spec fn view(&self) -> HostCallView {
        match self {
            HostCall::Complete(Some(text)) => HostCallView::Complete(Some(text@)),
            HostCall::Complete(None) => HostCallView::Complete(None),
            HostCall::CompleteWithFailure(text) => HostCallView::CompleteWithFailure(text@),
            HostCall::WriteLog(level, message) => HostCallView::WriteLog(*level, message@),
        }
    }
}

/// The call that ends an invocation with the given result, where the result
/// can be written.
pub open spec fn completion(result: Option<Payload>) -> Result<HostCallView, EncodeError> {
    match result {
        Some(p) => match payload_text(p@) {
            Ok(text) => Ok(HostCallView::Complete(Some(text))),
            Err(e) => Err(e),
        },
        None => Ok(HostCallView::Complete(None)),
    }
}

/// The call that ends an invocation with the given failure, where the
/// failure can be written.
pub open spec fn failing(failure: FailureView) -> Result<HostCallView, EncodeError> {
    match failure_text(failure) {
        Ok(text) => Ok(HostCallView::CompleteWithFailure(text)),
        Err(e) => Err(e),
    }
}

/// The one call that ends an invocation with the given outcome.
pub open spec fn conclusion(outcome: Result<Option<Payload>, Failure>) -> Result<
    HostCallView,
    EncodeError,
> {
    match outcome {
        Ok(result) => completion(result),
        Err(failure) => failing(failure@),
    }
}

/// The call that was decided on, seen as what it hands over.
pub open spec fn decided(r: Result<HostCall, EncodeError>) -> Result<HostCallView, EncodeError> {
    match r {
        Ok(call) => Ok(call@),
        Err(e) => Err(e),
    }
}

/// An invocation ends with `complete` where it has come to a result, with
/// `complete_with_failure` where it has come to a failure, and never with
/// another call.
pub proof fn lemma_one_completion(outcome: Result<Option<Payload>, Failure>)
    ensures
        match conclusion(outcome) {
            Ok(HostCallView::Complete(_)) => outcome is Ok,
            Ok(HostCallView::CompleteWithFailure(_)) => outcome is Err,
            Ok(HostCallView::WriteLog(_, _)) => false,
            Err(_) => true,
        },
{
}

/// The call that marks the invocation as finished, with its result or
/// without one.
pub fn complete(result: Option<Payload>) -> (r: Result<HostCall, EncodeError>)
    ensures
        decided(r) == completion(result),
{
    match &result {
        Some(p) => {
            let text = p.to_bytes()?;
            Ok(HostCall::Complete(Some(text)))
        },
        None => Ok(HostCall::Complete(None)),
    }
}

/// The call that marks the invocation as failed.
pub fn complete_with_failure(failure: &Failure) -> (r: Result<HostCall, EncodeError>)
    ensures
        decided(r) == failing(failure@),
{
    let text = failure.to_bytes()?;
    Ok(HostCall::CompleteWithFailure(text))
}

/// The one call that an invocation ends with: `complete` where it has come
/// to a result, `complete_with_failure` where it has come to a failure.
pub fn conclude(outcome: Result<Option<Payload>, Failure>) -> (r: Result<HostCall, EncodeError>)
    ensures
        decided(r) == conclusion(outcome),
{
    match outcome {
        Ok(result) => complete(result),
        Err(failure) => complete_with_failure(&failure),
    }
}

/// The call that records a message at a level.
pub fn write_log(level: LogLevel, message: &str) -> (call: HostCall)
    ensures
        call@ == HostCallView::WriteLog(level_code(level), vstd::utf8::encode_utf8(message@)),
{
    HostCall::WriteLog(level.code(), vstd::slice::slice_to_vec(message.as_bytes()))
}

} // verus!
