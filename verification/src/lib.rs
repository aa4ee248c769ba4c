//! Client-side logic for the Safelyx content-safety service.
//!
//! The service checks a link, an email address, a message or an image and
//! answers with a record. This library builds the request of each check and
//! turns the reply into the record, and leaves the exchange itself to its
//! caller:
//!
//! 1. `link_request` (or `email_request`, `message_request`,
//!    `image_request`) gives the address, the headers and the JSON body to
//!    post;
//! 2. the caller posts it and wraps what came back in a `Reply`;
//! 3. `link_result` (or `email_result`, `message_result`, `image_result`)
//!    gives the record, or the error.
//!
//! Every call stands alone: the library keeps no state between two checks.

pub mod codes;
pub mod decode;
pub mod error;
pub mod headers;
pub mod json;
pub mod laws;
pub mod records;
pub mod reply;
pub mod request;
pub mod shape;

pub use crate::error::CheckError;
pub use crate::records::{
    DomainAnalysis, EmailAnalysis, ImageAnalysis, MessageAnalysis, MessageEmailAnalysis,
    MessageLinkAnalysis, SafeEmailResponse, SafeImageResponse, SafeLinkResponse,
    SafeMessageResponse,
};
pub use crate::reply::{email_result, image_result, link_result, message_result, Reply};
pub use crate::request::{
    email_request, image_request, link_request, message_request, CheckKind, Field, Request,
};
