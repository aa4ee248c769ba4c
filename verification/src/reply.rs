//! From the outcome of an exchange to the result of a check.
//!
//! The library does not talk to the network. Whoever does hands back a
//! `Reply`, and the functions here say what the check then returns: the
//! decoded record, or one of the two errors. Nothing is retried and nothing
//! is recovered: a reply is judged once.

use crate::decode::{decoding, result_view};
use crate::shape::{email_response_of, image_response_of, link_response_of, message_response_of};
use crate::error::CheckError;
use crate::records::{
    SafeEmailResponse, SafeEmailResponseView, SafeImageResponse, SafeImageResponseView,
    SafeLinkResponse, SafeLinkResponseView, SafeMessageResponse, SafeMessageResponseView,
};
use vstd::prelude::*;

verus! {

/// How the exchange of one request ended.
#[derive(Debug, Clone, PartialEq, Eq)]
pub enum Reply {
    /// The request could not be delivered, or the reply could not be read
    /// to its end.
    Failed,
    /// The whole body of the reply, whatever its status.
    Body(Vec<u8>),
}

/// What a check returns after `reply`, where `held` is the record that the
/// body of the reply holds, if it holds one: a failed exchange is a
/// transport error, a body without a record a decode error.
pub open spec fn result_after<V>(reply: Reply, held: Option<V>) -> Result<V, CheckError> {
    match reply {
        Reply::Failed => Err(CheckError::Transport),
        Reply::Body(_) => decoding(held),
    }
}

/// The bytes that `reply` brought; none after a failed exchange.
pub open spec fn body_of(reply: Reply) -> Seq<u8> {
    match reply {
        Reply::Failed => Seq::empty(),
        Reply::Body(body) => body@,
    }
}

/// What a link check returns after `reply`.
pub open spec fn link_result_of(reply: Reply) -> Result<SafeLinkResponseView, CheckError> {
    result_after(reply, link_response_of(body_of(reply)))
}

/// What an email check returns after `reply`.
pub open spec fn email_result_of(reply: Reply) -> Result<SafeEmailResponseView, CheckError> {
    result_after(reply, email_response_of(body_of(reply)))
}

/// What a message check returns after `reply`.
pub open spec fn message_result_of(reply: Reply) -> Result<SafeMessageResponseView, CheckError> {
    result_after(reply, message_response_of(body_of(reply)))
}

/// What an image check returns after `reply`.
pub open spec fn image_result_of(reply: Reply) -> Result<SafeImageResponseView, CheckError> {
    result_after(reply, image_response_of(body_of(reply)))
}

/// The result of a link check whose exchange ended in `reply`.
pub fn link_result(reply: &Reply) -> (outcome: Result<SafeLinkResponse, CheckError>)
    ensures
        result_view(outcome) == link_result_of(*reply),
{
    match reply {
        Reply::Failed => Err(CheckError::Transport),
        Reply::Body(body) => SafeLinkResponse::decode(body.as_slice()),
    }
}

/// The result of an email check whose exchange ended in `reply`.
pub fn email_result(reply: &Reply) -> (outcome: Result<SafeEmailResponse, CheckError>)
    ensures
        result_view(outcome) == email_result_of(*reply),
{
    match reply {
        Reply::Failed => Err(CheckError::Transport),
        Reply::Body(body) => SafeEmailResponse::decode(body.as_slice()),
    }
}

/// The result of a message check whose exchange ended in `reply`.
pub fn message_result(reply: &Reply) -> (outcome: Result<SafeMessageResponse, CheckError>)
    ensures
        result_view(outcome) == message_result_of(*reply),
{
    match reply {
        Reply::Failed => Err(CheckError::Transport),
        Reply::Body(body) => SafeMessageResponse::decode(body.as_slice()),
    }
}

/// The result of an image check whose exchange ended in `reply`.
pub fn image_result(reply: &Reply) -> (outcome: Result<SafeImageResponse, CheckError>)
    ensures
        result_view(outcome) == image_result_of(*reply),
{
    match reply {
        Reply::Failed => Err(CheckError::Transport),
        Reply::Body(body) => SafeImageResponse::decode(body.as_slice()),
    }
}

} // verus!
