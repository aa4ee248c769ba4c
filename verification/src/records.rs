//! The records that the service answers with, and their mathematical views.
//!
//! A record is plain data: every field is public, nothing links two records,
//! and the library never changes one after it was decoded. The view of a
//! record holds the same fields with each `String` as a `Seq<char>` and each
//! `Vec` as a `Seq` of views.

use vstd::prelude::*;

verus! {

/// What the service found out about a domain.
#[derive(Debug, Clone, PartialEq, Eq)]
pub struct DomainAnalysis {
    pub domain_reputation: String,
    pub source_code: String,
    pub anti_virus: String,
}

pub struct DomainAnalysisView {
    pub domain_reputation: Seq<char>,
    pub source_code: Seq<char>,
    pub anti_virus: Seq<char>,
}

impl View for DomainAnalysis {
    type V = DomainAnalysisView;

    open spec fn view(&self) -> DomainAnalysisView {
        DomainAnalysisView {
            domain_reputation: self.domain_reputation@,
            source_code: self.source_code@,
            anti_virus: self.anti_virus@,
        }
    }
}

/// The answer to a link check.
#[derive(Debug, Clone, PartialEq, Eq)]
pub struct SafeLinkResponse {
    pub url: String,
    pub result: i32,
    pub result_text: String,
    pub date: String,
    pub analysis: DomainAnalysis,
    pub checks_remaining: i32,
}

pub struct SafeLinkResponseView {
    pub url: Seq<char>,
    pub result: i32,
    pub result_text: Seq<char>,
    pub date: Seq<char>,
    pub analysis: DomainAnalysisView,
    pub checks_remaining: i32,
}

impl View for SafeLinkResponse {
    type V = SafeLinkResponseView;

    open spec fn view(&self) -> SafeLinkResponseView {
        SafeLinkResponseView {
            url: self.url@,
            result: self.result,
            result_text: self.result_text@,
            date: self.date@,
            analysis: self.analysis@,
            checks_remaining: self.checks_remaining,
        }
    }
}

/// What the service found out about an email address.
#[derive(Debug, Clone, PartialEq, Eq)]
pub struct EmailAnalysis {
    pub address: String,
    pub domain_reputation: String,
    pub mx_records: String,
}

pub struct EmailAnalysisView {
    pub address: Seq<char>,
    pub domain_reputation: Seq<char>,
    pub mx_records: Seq<char>,
}

impl View for EmailAnalysis {
    type V = EmailAnalysisView;

    open spec fn view(&self) -> EmailAnalysisView {
        EmailAnalysisView {
            address: self.address@,
            domain_reputation: self.domain_reputation@,
            mx_records: self.mx_records@,
        }
    }
}

/// The answer to an email check.
#[derive(Debug, Clone, PartialEq, Eq)]
pub struct SafeEmailResponse {
    pub email: String,
    pub result: i32,
    pub result_text: String,
    pub date: String,
    pub analysis: EmailAnalysis,
    pub checks_remaining: i32,
}

pub struct SafeEmailResponseView {
    pub email: Seq<char>,
    pub result: i32,
    pub result_text: Seq<char>,
    pub date: Seq<char>,
    pub analysis: EmailAnalysisView,
    pub checks_remaining: i32,
}

impl View for SafeEmailResponse {
    type V = SafeEmailResponseView;

    open spec fn view(&self) -> SafeEmailResponseView {
        SafeEmailResponseView {
            email: self.email@,
            result: self.result,
            result_text: self.result_text@,
            date: self.date@,
            analysis: self.analysis@,
            checks_remaining: self.checks_remaining,
        }
    }
}

/// The check of one link found inside a message, or of an image's own URL.
#[derive(Debug, Clone, PartialEq, Eq)]
pub struct MessageLinkAnalysis {
    pub url: String,
    pub result: i32,
    pub date: String,
    pub analysis: DomainAnalysis,
}

pub struct MessageLinkAnalysisView {
    pub url: Seq<char>,
    pub result: i32,
    pub date: Seq<char>,
    pub analysis: DomainAnalysisView,
}

impl View for MessageLinkAnalysis {
    type V = MessageLinkAnalysisView;

    open spec fn view(&self) -> MessageLinkAnalysisView {
        MessageLinkAnalysisView {
            url: self.url@,
            result: self.result,
            date: self.date@,
            analysis: self.analysis@,
        }
    }
}

/// The check of one email address found inside a message.
#[derive(Debug, Clone, PartialEq, Eq)]
pub struct MessageEmailAnalysis {
    pub email: String,
    pub result: i32,
    pub date: String,
    pub analysis: EmailAnalysis,
}

pub struct MessageEmailAnalysisView {
    pub email: Seq<char>,
    pub result: i32,
    pub date: Seq<char>,
    pub analysis: EmailAnalysisView,
}

impl View for MessageEmailAnalysis {
    type V = MessageEmailAnalysisView;

    open spec fn view(&self) -> MessageEmailAnalysisView {
        MessageEmailAnalysisView {
            email: self.email@,
            result: self.result,
            date: self.date@,
            analysis: self.analysis@,
        }
    }
}

/// The views of `records`, in their order.
pub open spec fn link_views(records: Seq<MessageLinkAnalysis>) -> Seq<MessageLinkAnalysisView> {
    Seq::new(records.len(), |i: int| records[i]@)
}

/// The views of `records`, in their order.
pub open spec fn email_views(records: Seq<MessageEmailAnalysis>) -> Seq<
    MessageEmailAnalysisView,
> {
    Seq::new(records.len(), |i: int| records[i]@)
}

/// What the service found out about a message: its sentiment, and the links
/// and email addresses in it, each in the order of the reply.
#[derive(Debug, Clone, PartialEq, Eq)]
pub struct MessageAnalysis {
    pub content: String,
    pub sentiment: String,
    pub links: Vec<MessageLinkAnalysis>,
    pub emails: Vec<MessageEmailAnalysis>,
}

pub struct MessageAnalysisView {
    pub content: Seq<char>,
    pub sentiment: Seq<char>,
    pub links: Seq<MessageLinkAnalysisView>,
    pub emails: Seq<MessageEmailAnalysisView>,
}

impl View for MessageAnalysis {
    type V = MessageAnalysisView;

    open spec fn view(&self) -> MessageAnalysisView {
        MessageAnalysisView {
            content: self.content@,
            sentiment: self.sentiment@,
            links: link_views(self.links@),
            emails: email_views(self.emails@),
        }
    }
}

/// The answer to a message check.
#[derive(Debug, Clone, PartialEq, Eq)]
pub struct SafeMessageResponse {
    pub message: String,
    pub result: i32,
    pub result_text: String,
    pub date: String,
    pub analysis: MessageAnalysis,
    pub checks_remaining: i32,
}

pub struct SafeMessageResponseView {
    pub message: Seq<char>,
    pub result: i32,
    pub result_text: Seq<char>,
    pub date: Seq<char>,
    pub analysis: MessageAnalysisView,
    pub checks_remaining: i32,
}

impl View for SafeMessageResponse {
    type V = SafeMessageResponseView;

    open spec fn view(&self) -> SafeMessageResponseView {
        SafeMessageResponseView {
            message: self.message@,
            result: self.result,
            result_text: self.result_text@,
            date: self.date@,
            analysis: self.analysis@,
            checks_remaining: self.checks_remaining,
        }
    }
}

/// What the service found out about an image: a description, and the check
/// of the image's URL as a link.
#[derive(Debug, Clone, PartialEq, Eq)]
pub struct ImageAnalysis {
    pub description: String,
    pub link: MessageLinkAnalysis,
}

pub struct ImageAnalysisView {
    pub description: Seq<char>,
    pub link: MessageLinkAnalysisView,
}

impl View for ImageAnalysis {
    type V = ImageAnalysisView;

    open spec fn view(&self) -> ImageAnalysisView {
        ImageAnalysisView { description: self.description@, link: self.link@ }
    }
}

/// The answer to an image check. Unlike the other three answers it has no
/// result text.
#[derive(Debug, Clone, PartialEq, Eq)]
pub struct SafeImageResponse {
    pub image_url: String,
    pub result: i32,
    pub date: String,
    pub analysis: ImageAnalysis,
    pub checks_remaining: i32,
}

pub struct SafeImageResponseView {
    pub image_url: Seq<char>,
    pub result: i32,
    pub date: Seq<char>,
    pub analysis: ImageAnalysisView,
    pub checks_remaining: i32,
}

impl View for SafeImageResponse {
    type V = SafeImageResponseView;

    open spec fn view(&self) -> SafeImageResponseView {
        SafeImageResponseView {
            image_url: self.image_url@,
            result: self.result,
            date: self.date@,
            analysis: self.analysis@,
            checks_remaining: self.checks_remaining,
        }
    }
}

} // verus!
