//! Decoding a reply into the record of its operation.
//!
//! Each decoder returns the record that `crate::shape` says its input
//! holds, and a decode error where it holds none. What is decoded is kept
//! as it came: no text is trimmed and no number is judged.

use crate::error::CheckError;
use crate::json::{elements, integer, json_member, member, parse_document, text};
use crate::records::{
    email_views, link_views, DomainAnalysis, EmailAnalysis, ImageAnalysis, MessageAnalysis,
    MessageEmailAnalysis, MessageLinkAnalysis, SafeEmailResponse, SafeImageResponse,
    SafeLinkResponse, SafeMessageResponse,
};
use crate::shape::{
    code_member, domain_analysis_in, domain_analysis_member, email_analysis_in,
    email_analysis_member, email_response_in, email_response_of, image_analysis_in,
    image_response_in, image_response_of, link_response_in, link_response_of, list_member,
    message_analysis_in, message_email_in, message_emails_in, message_link_in,
    message_links_in, message_response_in, message_response_of, text_member,
};
use vstd::prelude::*;

verus! {

/// The view of a check's result: the view of the record, or the error.
pub open spec fn result_view<T: View>(outcome: Result<T, CheckError>) -> Result<T::V, CheckError> {
    match outcome {
        Ok(record) => Ok(record@),
        Err(error) => Err(error),
    }
}

/// What decoding returns where `held` is the record that the input holds, if
/// it holds one: that record, or else a decode error.
pub open spec fn decoding<V>(held: Option<V>) -> Result<V, CheckError> {
    match held {
        Some(record) => Ok(record),
        None => Err(CheckError::Decode),
    }
}

/// Reads the member `name` of `value`.
fn read_member<'a>(value: &'a serde_json::Value, name: &str) -> (r: Result<
    &'a serde_json::Value,
    CheckError,
>)
    ensures
        match r {
            Ok(inner) => json_member(*value, name@) == Some(*inner),
            Err(error) => json_member(*value, name@) is None && error == CheckError::Decode,
        },
{
    match member(value, name) {
        Some(inner) => Ok(inner),
        None => Err(CheckError::Decode),
    }
}

/// Reads the member `name` of `value` as a list.
fn read_list<'a>(value: &'a serde_json::Value, name: &str) -> (r: Result<
    &'a Vec<serde_json::Value>,
    CheckError,
>)
    ensures
        match r {
            Ok(items) => list_member(*value, name@) == Some(items@),
            Err(error) => list_member(*value, name@) is None && error == CheckError::Decode,
        },
{
    match elements(read_member(value, name)?) {
        Some(items) => Ok(items),
        None => Err(CheckError::Decode),
    }
}

/// Reads the member `name` of `value` as a text.
fn read_text(value: &serde_json::Value, name: &str) -> (r: Result<String, CheckError>)
    ensures
        result_view(r) == decoding(text_member(*value, name@)),
{
    match text(read_member(value, name)?) {
        Some(s) => Ok(s.to_owned()),
        None => Err(CheckError::Decode),
    }
}

/// Reads the member `name` of `value` as a number that fits `i32`.
fn read_code(value: &serde_json::Value, name: &str) -> (r: Result<i32, CheckError>)
    ensures
        r == decoding(code_member(*value, name@)),
{
    match integer(read_member(value, name)?) {
        Some(n) => if -2147483648 <= n && n <= 2147483647 {
            Ok(n as i32)
        } else {
            Err(CheckError::Decode)
        },
        None => Err(CheckError::Decode),
    }
}

impl DomainAnalysis {
    /// Decodes a domain analysis from a parsed JSON value.
    pub fn from_json(value: &serde_json::Value) -> (r: Result<DomainAnalysis, CheckError>)
        ensures
            result_view(r) == decoding(domain_analysis_in(*value)),
    {
        let domain_reputation = read_text(value, "domain_reputation")?;
        let source_code = read_text(value, "source_code")?;
        let anti_virus = read_text(value, "anti_virus")?;
        Ok(DomainAnalysis { domain_reputation, source_code, anti_virus })
    }
}

impl EmailAnalysis {
    /// Decodes an email analysis from a parsed JSON value.
    pub fn from_json(value: &serde_json::Value) -> (r: Result<EmailAnalysis, CheckError>)
        ensures
            result_view(r) == decoding(email_analysis_in(*value)),
    {
        let address = read_text(value, "address")?;
        let domain_reputation = read_text(value, "domain_reputation")?;
        let mx_records = read_text(value, "mx_records")?;
        Ok(EmailAnalysis { address, domain_reputation, mx_records })
    }
}

/// Decodes the member `analysis` of `value` as a domain analysis.
fn read_domain_analysis(value: &serde_json::Value) -> (r: Result<DomainAnalysis, CheckError>)
    ensures
        result_view(r) == decoding(domain_analysis_member(*value)),
{
    DomainAnalysis::from_json(read_member(value, "analysis")?)
}

/// Decodes the member `analysis` of `value` as an email analysis.
fn read_email_analysis(value: &serde_json::Value) -> (r: Result<EmailAnalysis, CheckError>)
    ensures
        result_view(r) == decoding(email_analysis_member(*value)),
{
    EmailAnalysis::from_json(read_member(value, "analysis")?)
}

impl SafeLinkResponse {
    /// Decodes the answer to a link check from a parsed JSON value.
    pub fn from_json(value: &serde_json::Value) -> (r: Result<SafeLinkResponse, CheckError>)
        ensures
            result_view(r) == decoding(link_response_in(*value)),
    {
        let url = read_text(value, "url")?;
        let result = read_code(value, "result")?;
        let result_text = read_text(value, "result_text")?;
        let date = read_text(value, "date")?;
        let analysis = read_domain_analysis(value)?;
        let checks_remaining = read_code(value, "checks_remaining")?;
        Ok(SafeLinkResponse { url, result, result_text, date, analysis, checks_remaining })
    }

    /// Decodes the answer to a link check from the bytes of a reply.
    pub fn decode(body: &[u8]) -> (r: Result<SafeLinkResponse, CheckError>)
        ensures
            result_view(r) == decoding(link_response_of(body@)),
    {
        match parse_document(body) {
            Ok(value) => SafeLinkResponse::from_json(&value),
            Err(_) => Err(CheckError::Decode),
        }
    }
}

impl SafeEmailResponse {
    /// Decodes the answer to an email check from a parsed JSON value.
    pub fn from_json(value: &serde_json::Value) -> (r: Result<SafeEmailResponse, CheckError>)
        ensures
            result_view(r) == decoding(email_response_in(*value)),
    {
        let email = read_text(value, "email")?;
        let result = read_code(value, "result")?;
        let result_text = read_text(value, "result_text")?;
        let date = read_text(value, "date")?;
        let analysis = read_email_analysis(value)?;
        let checks_remaining = read_code(value, "checks_remaining")?;
        Ok(SafeEmailResponse { email, result, result_text, date, analysis, checks_remaining })
    }

    /// Decodes the answer to an email check from the bytes of a reply.
    pub fn decode(body: &[u8]) -> (r: Result<SafeEmailResponse, CheckError>)
        ensures
            result_view(r) == decoding(email_response_of(body@)),
    {
        match parse_document(body) {
            Ok(value) => SafeEmailResponse::from_json(&value),
            Err(_) => Err(CheckError::Decode),
        }
    }
}

impl MessageLinkAnalysis {
    /// Decodes the check of a nested link from a parsed JSON value.
    pub fn from_json(value: &serde_json::Value) -> (r: Result<MessageLinkAnalysis, CheckError>)
        ensures
            result_view(r) == decoding(message_link_in(*value)),
    {
        let url = read_text(value, "url")?;
        let result = read_code(value, "result")?;
        let date = read_text(value, "date")?;
        let analysis = read_domain_analysis(value)?;
        Ok(MessageLinkAnalysis { url, result, date, analysis })
    }
}

impl MessageEmailAnalysis {
    /// Decodes the check of a nested email address from a parsed JSON value.
    pub fn from_json(value: &serde_json::Value) -> (r: Result<MessageEmailAnalysis, CheckError>)
        ensures
            result_view(r) == decoding(message_email_in(*value)),
    {
        let email = read_text(value, "email")?;
        let result = read_code(value, "result")?;
        let date = read_text(value, "date")?;
        let analysis = read_email_analysis(value)?;
        Ok(MessageEmailAnalysis { email, result, date, analysis })
    }
}

/// Decodes every element of `items` as the check of a nested link.
fn read_links(items: &Vec<serde_json::Value>) -> (r: Result<Vec<MessageLinkAnalysis>, CheckError>)
    ensures
        match r {
            Ok(records) => message_links_in(items@) == Some(link_views(records@)),
            Err(error) => message_links_in(items@) is None && error == CheckError::Decode,
        },
{
    let mut records: Vec<MessageLinkAnalysis> = Vec::new();
    let mut i: usize = 0;
    while i < items.len()
        invariant
            i <= items.len(),
            records.len() == i,
            forall|j: int|
                0 <= j < i ==> (#[trigger] message_link_in(items@[j])) == Some(records@[j]@),
        decreases items.len() - i,
    {
        match MessageLinkAnalysis::from_json(&items[i]) {
            Ok(record) => records.push(record),
            Err(_) => {
                assert(message_link_in(items@[i as int]) is None);
                return Err(CheckError::Decode);
            },
        }
        i = i + 1;
    }
    assert(message_links_in(items@)->Some_0 =~= link_views(records@));
    Ok(records)
}

/// Decodes every element of `items` as the check of a nested email address.
fn read_emails(items: &Vec<serde_json::Value>) -> (r: Result<
    Vec<MessageEmailAnalysis>,
    CheckError,
>)
    ensures
        match r {
            Ok(records) => message_emails_in(items@) == Some(email_views(records@)),
            Err(error) => message_emails_in(items@) is None && error == CheckError::Decode,
        },
{
    let mut records: Vec<MessageEmailAnalysis> = Vec::new();
    let mut i: usize = 0;
    while i < items.len()
        invariant
            i <= items.len(),
            records.len() == i,
            forall|j: int|
                0 <= j < i ==> (#[trigger] message_email_in(items@[j])) == Some(records@[j]@),
        decreases items.len() - i,
    {
        match MessageEmailAnalysis::from_json(&items[i]) {
            Ok(record) => records.push(record),
            Err(_) => {
                assert(message_email_in(items@[i as int]) is None);
                return Err(CheckError::Decode);
            },
        }
        i = i + 1;
    }
    assert(message_emails_in(items@)->Some_0 =~= email_views(records@));
    Ok(records)
}

impl MessageAnalysis {
    /// Decodes a message analysis from a parsed JSON value.
    pub fn from_json(value: &serde_json::Value) -> (r: Result<MessageAnalysis, CheckError>)
        ensures
            result_view(r) == decoding(message_analysis_in(*value)),
    {
        let content = read_text(value, "content")?;
        let sentiment = read_text(value, "sentiment")?;
        let links = read_links(read_list(value, "links")?)?;
        let emails = read_emails(read_list(value, "emails")?)?;
        Ok(MessageAnalysis { content, sentiment, links, emails })
    }
}

impl SafeMessageResponse {
    /// Decodes the answer to a message check from a parsed JSON value.
    pub fn from_json(value: &serde_json::Value) -> (r: Result<SafeMessageResponse, CheckError>)
        ensures
            result_view(r) == decoding(message_response_in(*value)),
    {
        let message = read_text(value, "message")?;
        let result = read_code(value, "result")?;
        let result_text = read_text(value, "result_text")?;
        let date = read_text(value, "date")?;
        let analysis = MessageAnalysis::from_json(read_member(value, "analysis")?)?;
        let checks_remaining = read_code(value, "checks_remaining")?;
        Ok(SafeMessageResponse { message, result, result_text, date, analysis, checks_remaining })
    }

    /// Decodes the answer to a message check from the bytes of a reply.
    pub fn decode(body: &[u8]) -> (r: Result<SafeMessageResponse, CheckError>)
        ensures
            result_view(r) == decoding(message_response_of(body@)),
    {
        match parse_document(body) {
            Ok(value) => SafeMessageResponse::from_json(&value),
            Err(_) => Err(CheckError::Decode),
        }
    }
}

impl ImageAnalysis {
    /// Decodes an image analysis from a parsed JSON value.
    pub fn from_json(value: &serde_json::Value) -> (r: Result<ImageAnalysis, CheckError>)
        ensures
            result_view(r) == decoding(image_analysis_in(*value)),
    {
        let description = read_text(value, "description")?;
        let link = MessageLinkAnalysis::from_json(read_member(value, "link")?)?;
        Ok(ImageAnalysis { description, link })
    }
}

impl SafeImageResponse {
    /// Decodes the answer to an image check from a parsed JSON value.
    pub fn from_json(value: &serde_json::Value) -> (r: Result<SafeImageResponse, CheckError>)
        ensures
            result_view(r) == decoding(image_response_in(*value)),
    {
        let image_url = read_text(value, "image_url")?;
        let result = read_code(value, "result")?;
        let date = read_text(value, "date")?;
        let analysis = ImageAnalysis::from_json(read_member(value, "analysis")?)?;
        let checks_remaining = read_code(value, "checks_remaining")?;
        Ok(SafeImageResponse { image_url, result, date, analysis, checks_remaining })
    }

    /// Decodes the answer to an image check from the bytes of a reply.
    pub fn decode(body: &[u8]) -> (r: Result<SafeImageResponse, CheckError>)
        ensures
            result_view(r) == decoding(image_response_of(body@)),
    {
        match parse_document(body) {
            Ok(value) => SafeImageResponse::from_json(&value),
            Err(_) => Err(CheckError::Decode),
        }
    }
}

} // verus!
