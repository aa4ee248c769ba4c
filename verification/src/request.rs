//! Building the request of each operation: where it goes, which headers it
//! carries and what its JSON body says.

use crate::headers::{create_headers, header_lines, standard_headers};
use crate::json::{json_object_bytes, render_object};
use vstd::prelude::*;

verus! {

/// The four operations of the service.
#[derive(Clone, Copy, Debug, PartialEq, Eq, Structural)]
pub enum CheckKind {
    Link,
    Email,
    Message,
    Image,
}

/// One member of a request's body: a name and the text that goes with it.
#[derive(Debug, Clone, PartialEq, Eq)]
pub struct Field {
    pub name: String,
    pub value: String,
}

impl View for Field {
    type V = (Seq<char>, Seq<char>);

    open spec fn view(&self) -> (Seq<char>, Seq<char>) {
        (self.name@, self.value@)
    }
}

/// The views of `fields`, in their order.
pub open spec fn field_views(fields: Seq<Field>) -> Seq<(Seq<char>, Seq<char>)> {
    Seq::new(fields.len(), |i: int| fields[i]@)
}

/// The scheme and host of the service.
pub const BASE_URL: &'static str = "https://safelyx.com";

/// The path of an operation below the host.
pub open spec fn endpoint_path(kind: CheckKind) -> Seq<char> {
    match kind {
        CheckKind::Link => "/safe-link-checker"@,
        CheckKind::Email => "/safe-email-checker"@,
        CheckKind::Message => "/safe-message-checker"@,
        CheckKind::Image => "/safe-image-checker"@,
    }
}

/// The address that an operation's request is posted to.
pub open spec fn endpoint_text(kind: CheckKind) -> Seq<char> {
    BASE_URL@ + endpoint_path(kind)
}

/// The name under which an operation's subject travels.
pub open spec fn subject_name(kind: CheckKind) -> Seq<char> {
    match kind {
        CheckKind::Link => "link"@,
        CheckKind::Email => "email"@,
        CheckKind::Message => "message"@,
        CheckKind::Image => "image_url"@,
    }
}

/// How the flag of a message check is written: as a text, not as a JSON
/// boolean.
pub open spec fn flag_text(flag: bool) -> Seq<char> {
    if flag {
        "true"@
    } else {
        "false"@
    }
}

/// The members of an operation's body, in the order in which they are
/// added: the subject; for a message check the flag that tells the service
/// to skip the checks of nested links and addresses; the access key, where
/// the caller gave one. `skip` counts for a message check only.
pub open spec fn payload_fields(
    kind: CheckKind,
    subject: Seq<char>,
    skip: bool,
    key_code: Option<Seq<char>>,
) -> Seq<(Seq<char>, Seq<char>)> {
    let first = seq![(subject_name(kind), subject)];
    let second = if kind == CheckKind::Message {
        first.push(("skip_link_and_email_checks"@, flag_text(skip)))
    } else {
        first
    };
    match key_code {
        Some(code) => second.push(("key_code"@, code)),
        None => second,
    }
}

/// The text of an optional access key.
pub open spec fn key_text(key_code: Option<&str>) -> Option<Seq<char>> {
    match key_code {
        Some(code) => Some(code@),
        None => None,
    }
}

/// The address that the request of `kind` is posted to.
pub fn endpoint(kind: CheckKind) -> (url: &'static str)
    ensures
        url@ == endpoint_text(kind),
{
    proof {
        reveal_strlit("https://safelyx.com");
        reveal_strlit("/safe-link-checker");
        reveal_strlit("/safe-email-checker");
        reveal_strlit("/safe-message-checker");
        reveal_strlit("/safe-image-checker");
        reveal_strlit("https://safelyx.com/safe-link-checker");
        reveal_strlit("https://safelyx.com/safe-email-checker");
        reveal_strlit("https://safelyx.com/safe-message-checker");
        reveal_strlit("https://safelyx.com/safe-image-checker");
    }
    let url = match kind {
        CheckKind::Link => "https://safelyx.com/safe-link-checker",
        CheckKind::Email => "https://safelyx.com/safe-email-checker",
        CheckKind::Message => "https://safelyx.com/safe-message-checker",
        CheckKind::Image => "https://safelyx.com/safe-image-checker",
    };
    assert(url@ =~= endpoint_text(kind));
    url
}

/// Makes one member of a body.
fn field(name: &str, value: &str) -> (f: Field)
    ensures
        f@ == (name@, value@),
{
    Field { name: name.to_owned(), value: value.to_owned() }
}

/// Builds the members of the body of the request of `kind`.
pub fn payload(
    kind: CheckKind,
    subject: &str,
    skip: bool,
    key_code: Option<&str>,
) -> (fields: Vec<Field>)
    ensures
        field_views(fields@) == payload_fields(kind, subject@, skip, key_text(key_code)),
{
    let mut fields: Vec<Field> = Vec::new();
    let name = match kind {
        CheckKind::Link => "link",
        CheckKind::Email => "email",
        CheckKind::Message => "message",
        CheckKind::Image => "image_url",
    };
    fields.push(field(name, subject));
    match kind {
        CheckKind::Message => {
            let flag = if skip {
                "true"
            } else {
                "false"
            };
            fields.push(field("skip_link_and_email_checks", flag));
        },
        _ => {},
    }
    match key_code {
        Some(code) => {
            fields.push(field("key_code", code));
        },
        None => {},
    }
    assert(field_views(fields@) =~= payload_fields(kind, subject@, skip, key_text(key_code)));
    fields
}

/// A request, ready to be posted.
#[derive(Debug)]
pub struct Request {
    /// The address to post to.
    pub url: String,
    /// The headers to send.
    pub headers: reqwest::header::HeaderMap<reqwest::header::HeaderValue>,
    /// The JSON text of the body.
    pub body: Vec<u8>,
}

impl Request {
    /// This is the request of `kind` for `subject`: it goes to the
    /// operation's address, carries the two standard headers, and its body
    /// is the JSON object of the operation's members.
    pub open spec fn is_for(
        &self,
        kind: CheckKind,
        subject: Seq<char>,
        skip: bool,
        key_code: Option<Seq<char>>,
    ) -> bool {
        &&& self.url@ == endpoint_text(kind)
        &&& header_lines(self.headers) == standard_headers()
        &&& self.body@ == json_object_bytes(payload_fields(kind, subject, skip, key_code))
    }
}

/// Builds the request of `kind` for `subject`.
pub fn build_request(
    kind: CheckKind,
    subject: &str,
    skip: bool,
    key_code: Option<&str>,
) -> (request: Request)
    ensures
        request.is_for(kind, subject@, skip, key_text(key_code)),
{
    let fields = payload(kind, subject, skip, key_code);
    let body = match render_object(&fields) {
        Ok(bytes) => bytes,
        Err(_) => vstd::pervasive::unreached(),
    };
    Request { url: endpoint(kind).to_owned(), headers: create_headers(), body }
}

/// Builds the request that asks whether `link` is safe to visit.
pub fn link_request(link: &str, key_code: Option<&str>) -> (request: Request)
    ensures
        request.is_for(CheckKind::Link, link@, false, key_text(key_code)),
{
    build_request(CheckKind::Link, link, false, key_code)
}

/// Builds the request that asks whether `email` is a legitimate address.
pub fn email_request(email: &str, key_code: Option<&str>) -> (request: Request)
    ensures
        request.is_for(CheckKind::Email, email@, false, key_text(key_code)),
{
    build_request(CheckKind::Email, email, false, key_code)
}

/// Builds the request that asks whether `message` is safe. With
/// `skip_link_and_email_checks` the service leaves the links and addresses
/// in the message unchecked.
pub fn message_request(
    message: &str,
    skip_link_and_email_checks: bool,
    key_code: Option<&str>,
) -> (request: Request)
    ensures
        request.is_for(
            CheckKind::Message,
            message@,
            skip_link_and_email_checks,
            key_text(key_code),
        ),
{
    build_request(CheckKind::Message, message, skip_link_and_email_checks, key_code)
}

/// Builds the request that asks whether the image at `image_url` is safe.
pub fn image_request(image_url: &str, key_code: Option<&str>) -> (request: Request)
    ensures
        request.is_for(CheckKind::Image, image_url@, false, key_text(key_code)),
{
    build_request(CheckKind::Image, image_url, false, key_code)
}

} // verus!
