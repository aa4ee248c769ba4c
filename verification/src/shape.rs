//! Which record a JSON value holds.
//!
//! A value holds a record when it is an object and every member that the
//! record needs is there with the right JSON type: a string for a text, an
//! integer that fits `i32` for a number, an array for a list, an object for
//! a nested record. Members that the record does not name do not matter,
//! and of a member that a reply names twice the parser has kept the later
//! one. The record then has each text and each number exactly as the value
//! gives it, and each list in the order of the array.

use crate::json::{json_document, json_elements, json_integer, json_member, json_text};
use crate::records::{
    DomainAnalysisView, EmailAnalysisView, ImageAnalysisView, MessageAnalysisView,
    MessageEmailAnalysisView, MessageLinkAnalysisView, SafeEmailResponseView,
    SafeImageResponseView, SafeLinkResponseView, SafeMessageResponseView,
};
use vstd::prelude::*;

verus! {

/// The text of the member `name` of `value`, where it is a JSON string.
pub open spec fn text_member(value: serde_json::Value, name: Seq<char>) -> Option<Seq<char>> {
    match json_member(value, name) {
        Some(inner) => json_text(inner),
        None => None,
    }
}

/// The number in the member `name` of `value`, where it is an integer within
/// the range of `i32`.
pub open spec fn code_member(value: serde_json::Value, name: Seq<char>) -> Option<i32> {
    match json_member(value, name) {
        Some(inner) => match json_integer(inner) {
            Some(n) => if i32::MIN <= n <= i32::MAX {
                Some(n as i32)
            } else {
                None
            },
            None => None,
        },
        None => None,
    }
}

/// The elements of the member `name` of `value`, where it is a JSON array.
pub open spec fn list_member(value: serde_json::Value, name: Seq<char>) -> Option<
    Seq<serde_json::Value>,
> {
    match json_member(value, name) {
        Some(inner) => json_elements(inner),
        None => None,
    }
}

/// The domain analysis that `value` holds.
pub open spec fn domain_analysis_in(value: serde_json::Value) -> Option<DomainAnalysisView> {
    match (
        text_member(value, "domain_reputation"@),
        text_member(value, "source_code"@),
        text_member(value, "anti_virus"@),
    ) {
        (Some(domain_reputation), Some(source_code), Some(anti_virus)) => Some(
            DomainAnalysisView { domain_reputation, source_code, anti_virus },
        ),
        _ => None,
    }
}

/// The email analysis that `value` holds.
pub open spec fn email_analysis_in(value: serde_json::Value) -> Option<EmailAnalysisView> {
    match (
        text_member(value, "address"@),
        text_member(value, "domain_reputation"@),
        text_member(value, "mx_records"@),
    ) {
        (Some(address), Some(domain_reputation), Some(mx_records)) => Some(
            EmailAnalysisView { address, domain_reputation, mx_records },
        ),
        _ => None,
    }
}

/// The domain analysis in the member `analysis` of `value`.
pub open spec fn domain_analysis_member(value: serde_json::Value) -> Option<DomainAnalysisView> {
    match json_member(value, "analysis"@) {
        Some(inner) => domain_analysis_in(inner),
        None => None,
    }
}

/// The email analysis in the member `analysis` of `value`.
pub open spec fn email_analysis_member(value: serde_json::Value) -> Option<EmailAnalysisView> {
    match json_member(value, "analysis"@) {
        Some(inner) => email_analysis_in(inner),
        None => None,
    }
}

/// The answer to a link check that `value` holds.
pub open spec fn link_response_in(value: serde_json::Value) -> Option<SafeLinkResponseView> {
    match (
        text_member(value, "url"@),
        code_member(value, "result"@),
        text_member(value, "result_text"@),
        text_member(value, "date"@),
        domain_analysis_member(value),
        code_member(value, "checks_remaining"@),
    ) {
        (
            Some(url),
            Some(result),
            Some(result_text),
            Some(date),
            Some(analysis),
            Some(checks_remaining),
        ) => Some(
            SafeLinkResponseView { url, result, result_text, date, analysis, checks_remaining },
        ),
        _ => None,
    }
}

/// The answer to an email check that `value` holds.
pub open spec fn email_response_in(value: serde_json::Value) -> Option<SafeEmailResponseView> {
    match (
        text_member(value, "email"@),
        code_member(value, "result"@),
        text_member(value, "result_text"@),
        text_member(value, "date"@),
        email_analysis_member(value),
        code_member(value, "checks_remaining"@),
    ) {
        (
            Some(email),
            Some(result),
            Some(result_text),
            Some(date),
            Some(analysis),
            Some(checks_remaining),
        ) => Some(
            SafeEmailResponseView { email, result, result_text, date, analysis, checks_remaining },
        ),
        _ => None,
    }
}

/// The check of a nested link that `value` holds.
pub open spec fn message_link_in(value: serde_json::Value) -> Option<MessageLinkAnalysisView> {
    match (
        text_member(value, "url"@),
        code_member(value, "result"@),
        text_member(value, "date"@),
        domain_analysis_member(value),
    ) {
        (Some(url), Some(result), Some(date), Some(analysis)) => Some(
            MessageLinkAnalysisView { url, result, date, analysis },
        ),
        _ => None,
    }
}

/// The check of a nested email address that `value` holds.
pub open spec fn message_email_in(value: serde_json::Value) -> Option<MessageEmailAnalysisView> {
    match (
        text_member(value, "email"@),
        code_member(value, "result"@),
        text_member(value, "date"@),
        email_analysis_member(value),
    ) {
        (Some(email), Some(result), Some(date), Some(analysis)) => Some(
            MessageEmailAnalysisView { email, result, date, analysis },
        ),
        _ => None,
    }
}

/// The nested link checks that `items` hold, in their order: there is such a
/// list only where every item holds one.
pub open spec fn message_links_in(items: Seq<serde_json::Value>) -> Option<
    Seq<MessageLinkAnalysisView>,
> {
    if forall|i: int| 0 <= i < items.len() ==> (#[trigger] message_link_in(items[i])) is Some {
        Some(Seq::new(items.len(), |i: int| message_link_in(items[i])->Some_0))
    } else {
        None
    }
}

/// The nested email checks that `items` hold, in their order: there is such
/// a list only where every item holds one.
pub open spec fn message_emails_in(items: Seq<serde_json::Value>) -> Option<
    Seq<MessageEmailAnalysisView>,
> {
    if forall|i: int| 0 <= i < items.len() ==> (#[trigger] message_email_in(items[i])) is Some {
        Some(Seq::new(items.len(), |i: int| message_email_in(items[i])->Some_0))
    } else {
        None
    }
}

/// The message analysis that `value` holds.
pub open spec fn message_analysis_in(value: serde_json::Value) -> Option<MessageAnalysisView> {
    match (
        text_member(value, "content"@),
        text_member(value, "sentiment"@),
        list_member(value, "links"@),
        list_member(value, "emails"@),
    ) {
        (Some(content), Some(sentiment), Some(link_items), Some(email_items)) => match (
            message_links_in(link_items),
            message_emails_in(email_items),
        ) {
            (Some(links), Some(emails)) => Some(
                MessageAnalysisView { content, sentiment, links, emails },
            ),
            _ => None,
        },
        _ => None,
    }
}

/// The message analysis in the member `analysis` of `value`.
pub open spec fn message_analysis_member(value: serde_json::Value) -> Option<
    MessageAnalysisView,
> {
    match json_member(value, "analysis"@) {
        Some(inner) => message_analysis_in(inner),
        None => None,
    }
}

/// The answer to a message check that `value` holds.
pub open spec fn message_response_in(value: serde_json::Value) -> Option<
    SafeMessageResponseView,
> {
    match (
        text_member(value, "message"@),
        code_member(value, "result"@),
        text_member(value, "result_text"@),
        text_member(value, "date"@),
        message_analysis_member(value),
        code_member(value, "checks_remaining"@),
    ) {
        (
            Some(message),
            Some(result),
            Some(result_text),
            Some(date),
            Some(analysis),
            Some(checks_remaining),
        ) => Some(
            SafeMessageResponseView {
                message,
                result,
                result_text,
                date,
                analysis,
                checks_remaining,
            },
        ),
        _ => None,
    }
}

/// The image analysis that `value` holds.
pub open spec fn image_analysis_in(value: serde_json::Value) -> Option<ImageAnalysisView> {
    match (
        text_member(value, "description"@),
        match json_member(value, "link"@) {
            Some(inner) => message_link_in(inner),
            None => None,
        },
    ) {
        (Some(description), Some(link)) => Some(ImageAnalysisView { description, link }),
        _ => None,
    }
}

/// The image analysis in the member `analysis` of `value`.
pub open spec fn image_analysis_member(value: serde_json::Value) -> Option<ImageAnalysisView> {
    match json_member(value, "analysis"@) {
        Some(inner) => image_analysis_in(inner),
        None => None,
    }
}

/// The answer to an image check that `value` holds.
pub open spec fn image_response_in(value: serde_json::Value) -> Option<SafeImageResponseView> {
    match (
        text_member(value, "image_url"@),
        code_member(value, "result"@),
        text_member(value, "date"@),
        image_analysis_member(value),
        code_member(value, "checks_remaining"@),
    ) {
        (Some(image_url), Some(result), Some(date), Some(analysis), Some(checks_remaining)) => Some(
            SafeImageResponseView { image_url, result, date, analysis, checks_remaining },
        ),
        _ => None,
    }
}

/// The answer to a link check that the reply `body` holds.
pub open spec fn link_response_of(body: Seq<u8>) -> Option<SafeLinkResponseView> {
    match json_document(body) {
        Some(value) => link_response_in(value),
        None => None,
    }
}

/// The answer to an email check that the reply `body` holds.
pub open spec fn email_response_of(body: Seq<u8>) -> Option<SafeEmailResponseView> {
    match json_document(body) {
        Some(value) => email_response_in(value),
        None => None,
    }
}

/// The answer to a message check that the reply `body` holds.
pub open spec fn message_response_of(body: Seq<u8>) -> Option<SafeMessageResponseView> {
    match json_document(body) {
        Some(value) => message_response_in(value),
        None => None,
    }
}

/// The answer to an image check that the reply `body` holds.
pub open spec fn image_response_of(body: Seq<u8>) -> Option<SafeImageResponseView> {
    match json_document(body) {
        Some(value) => image_response_in(value),
        None => None,
    }
}

} // verus!
