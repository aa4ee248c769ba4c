//! What holds of every request and of every reply, proved from the
//! definitions that the contracts use.

use crate::codes::{is_link_code, is_nested_link_code, is_verdict_code};
use crate::error::CheckError;
use crate::json::{json_document, json_member};
use crate::reply::{email_result_of, image_result_of, link_result_of, message_result_of, Reply};
use crate::request::{flag_text, payload_fields, subject_name, CheckKind};
use crate::shape::{
    code_member, email_response_of, image_response_of, link_response_of, list_member,
    message_email_in, message_link_in, message_response_of, text_member,
};
use vstd::prelude::*;

verus! {

/// The subject travels as the caller gave it: it is the first member of the
/// body, under the name of its operation, character for character.
pub proof fn subject_is_sent_as_given(
    kind: CheckKind,
    subject: Seq<char>,
    skip: bool,
    key_code: Option<Seq<char>>,
)
    ensures
        payload_fields(kind, subject, skip, key_code).len() >= 1,
        payload_fields(kind, subject, skip, key_code)[0] == (subject_name(kind), subject),
{
}

/// The body has a member `key_code` exactly where the caller gave an access
/// key. Where there is one it is the last member and holds the key as
/// given; where there is none, no member has that name.
pub proof fn key_code_is_sent_only_when_given(
    kind: CheckKind,
    subject: Seq<char>,
    skip: bool,
    key_code: Option<Seq<char>>,
)
    ensures
        key_code is Some <==> exists|i: int|
            0 <= i < payload_fields(kind, subject, skip, key_code).len() && (
            #[trigger] payload_fields(kind, subject, skip, key_code)[i]).0 == "key_code"@,
        key_code is Some ==> payload_fields(kind, subject, skip, key_code).last() == (
            "key_code"@,
            key_code->Some_0,
        ),
{
    reveal_strlit("key_code");
    reveal_strlit("link");
    reveal_strlit("email");
    reveal_strlit("message");
    reveal_strlit("image_url");
    reveal_strlit("skip_link_and_email_checks");
    let fields = payload_fields(kind, subject, skip, key_code);
    if key_code is Some {
        assert(fields[fields.len() - 1].0 == "key_code"@);
    } else {
        assert(subject_name(kind).len() != "key_code"@.len());
        assert("skip_link_and_email_checks"@.len() != "key_code"@.len());
        assert forall|i: int| 0 <= i < fields.len() implies (#[trigger] fields[i]).0
            != "key_code"@ by {
            if i == 0 {
                assert(fields[i].0 == subject_name(kind));
            } else {
                assert(fields[i].0 == "skip_link_and_email_checks"@);
            }
        }
    }
}

/// The flag of a message check is sent as a text, the four letters `true`
/// or the five letters `false`, as the second member of the body; the other
/// operations send no such member.
pub proof fn flag_is_sent_as_text(
    kind: CheckKind,
    subject: Seq<char>,
    skip: bool,
    key_code: Option<Seq<char>>,
)
    ensures
        kind == CheckKind::Message ==> payload_fields(kind, subject, skip, key_code).len() >= 2
            && payload_fields(kind, subject, skip, key_code)[1] == (
            "skip_link_and_email_checks"@,
            flag_text(skip),
        ),
        flag_text(true) == seq!['t', 'r', 'u', 'e'],
        flag_text(false) == seq!['f', 'a', 'l', 's', 'e'],
        kind != CheckKind::Message ==> forall|i: int|
            0 <= i < payload_fields(kind, subject, skip, key_code).len() ==> (
            #[trigger] payload_fields(kind, subject, skip, key_code)[i]).0
                != "skip_link_and_email_checks"@,
{
    reveal_strlit("true");
    reveal_strlit("false");
    reveal_strlit("key_code");
    reveal_strlit("link");
    reveal_strlit("email");
    reveal_strlit("image_url");
    reveal_strlit("skip_link_and_email_checks");
    assert(flag_text(true) =~= seq!['t', 'r', 'u', 'e']);
    assert(flag_text(false) =~= seq!['f', 'a', 'l', 's', 'e']);
    let fields = payload_fields(kind, subject, skip, key_code);
    if kind != CheckKind::Message {
        assert(subject_name(kind).len() != "skip_link_and_email_checks"@.len());
        assert("key_code"@.len() != "skip_link_and_email_checks"@.len());
        assert forall|i: int| 0 <= i < fields.len() implies (#[trigger] fields[i]).0
            != "skip_link_and_email_checks"@ by {
            if i == 0 {
                assert(fields[i].0 == subject_name(kind));
            } else {
                assert(fields[i].0 == "key_code"@);
            }
        }
    }
}

/// Decoding the answer to a link check alters nothing: the record's
/// subject, code and counter are those of the reply. So the subject is the
/// one that the service echoed, and the codes are documented ones exactly
/// where those of the reply are.
pub proof fn link_reply_is_kept(body: Seq<u8>)
    requires
        link_response_of(body) is Some,
    ensures
        json_document(body) is Some,
        text_member(json_document(body)->Some_0, "url"@) == Some(
            link_response_of(body)->Some_0.url,
        ),
        code_member(json_document(body)->Some_0, "result"@) == Some(
            link_response_of(body)->Some_0.result,
        ),
        code_member(json_document(body)->Some_0, "checks_remaining"@) == Some(
            link_response_of(body)->Some_0.checks_remaining,
        ),
        link_response_of(body)->Some_0.has_documented_codes() <==> is_link_code(
            code_member(json_document(body)->Some_0, "result"@)->Some_0,
        ) && code_member(json_document(body)->Some_0, "checks_remaining"@)->Some_0 >= 0,
{
}

/// Decoding the answer to an email check alters nothing: the record's
/// subject, code and counter are those of the reply. So the codes are
/// documented ones exactly where those of the reply are.
pub proof fn email_reply_is_kept(body: Seq<u8>)
    requires
        email_response_of(body) is Some,
    ensures
        json_document(body) is Some,
        text_member(json_document(body)->Some_0, "email"@) == Some(
            email_response_of(body)->Some_0.email,
        ),
        code_member(json_document(body)->Some_0, "result"@) == Some(
            email_response_of(body)->Some_0.result,
        ),
        code_member(json_document(body)->Some_0, "checks_remaining"@) == Some(
            email_response_of(body)->Some_0.checks_remaining,
        ),
        email_response_of(body)->Some_0.has_documented_codes() <==> is_verdict_code(
            code_member(json_document(body)->Some_0, "result"@)->Some_0,
        ) && code_member(json_document(body)->Some_0, "checks_remaining"@)->Some_0 >= 0,
{
}

/// The elements of the member `name` of the analysis in the reply `body`.
pub open spec fn nested_items(body: Seq<u8>, name: Seq<char>) -> Seq<serde_json::Value> {
    list_member(json_member(json_document(body)->Some_0, "analysis"@)->Some_0, name)->Some_0
}

/// Decoding the answer to a message check alters nothing: the record's
/// subject, code and counter are those of the reply, and its nested checks
/// are those of the reply, as many and in the same order, each with the
/// subject and the code that the reply gives it. So the codes are
/// documented ones exactly where those of the reply are.
pub proof fn message_reply_is_kept(body: Seq<u8>)
    requires
        message_response_of(body) is Some,
    ensures
        json_document(body) is Some,
        text_member(json_document(body)->Some_0, "message"@) == Some(
            message_response_of(body)->Some_0.message,
        ),
        code_member(json_document(body)->Some_0, "result"@) == Some(
            message_response_of(body)->Some_0.result,
        ),
        code_member(json_document(body)->Some_0, "checks_remaining"@) == Some(
            message_response_of(body)->Some_0.checks_remaining,
        ),
        message_response_of(body)->Some_0.analysis.links.len() == nested_items(
            body,
            "links"@,
        ).len(),
        message_response_of(body)->Some_0.analysis.emails.len() == nested_items(
            body,
            "emails"@,
        ).len(),
        forall|i: int|
            0 <= i < nested_items(body, "links"@).len() ==> {
                &&& text_member(#[trigger] nested_items(body, "links"@)[i], "url"@) == Some(
                    message_response_of(body)->Some_0.analysis.links[i].url,
                )
                &&& code_member(nested_items(body, "links"@)[i], "result"@) == Some(
                    message_response_of(body)->Some_0.analysis.links[i].result,
                )
            },
        forall|i: int|
            0 <= i < nested_items(body, "emails"@).len() ==> {
                &&& text_member(#[trigger] nested_items(body, "emails"@)[i], "email"@) == Some(
                    message_response_of(body)->Some_0.analysis.emails[i].email,
                )
                &&& code_member(nested_items(body, "emails"@)[i], "result"@) == Some(
                    message_response_of(body)->Some_0.analysis.emails[i].result,
                )
            },
        message_response_of(body)->Some_0.has_documented_codes() <==> {
            &&& is_verdict_code(code_member(json_document(body)->Some_0, "result"@)->Some_0)
            &&& code_member(json_document(body)->Some_0, "checks_remaining"@)->Some_0 >= 0
            &&& forall|i: int|
                0 <= i < nested_items(body, "links"@).len() ==> is_nested_link_code(
                    code_member(#[trigger] nested_items(body, "links"@)[i], "result"@)->Some_0,
                )
            &&& forall|i: int|
                0 <= i < nested_items(body, "emails"@).len() ==> is_verdict_code(
                    code_member(#[trigger] nested_items(body, "emails"@)[i], "result"@)->Some_0,
                )
        },
{
    let record = message_response_of(body)->Some_0;
    let links = nested_items(body, "links"@);
    let emails = nested_items(body, "emails"@);
    assert forall|i: int| 0 <= i < links.len() implies (#[trigger] record.analysis.links[i]).result
        == code_member(links[i], "result"@)->Some_0 by {
        assert(message_link_in(links[i]) is Some);
    }
    assert forall|i: int|
        0 <= i < emails.len() implies (#[trigger] record.analysis.emails[i]).result == code_member(
        emails[i],
        "result"@,
    )->Some_0 by {
        assert(message_email_in(emails[i]) is Some);
    }
    if record.has_documented_codes() {
        assert forall|i: int| 0 <= i < links.len() implies is_nested_link_code(
            code_member(#[trigger] links[i], "result"@)->Some_0,
        ) by {
            assert(record.analysis.links[i].has_documented_codes());
        }
        assert forall|i: int| 0 <= i < emails.len() implies is_verdict_code(
            code_member(#[trigger] emails[i], "result"@)->Some_0,
        ) by {
            assert(record.analysis.emails[i].has_documented_codes());
        }
    }
}

/// Decoding the answer to an image check alters nothing: the record's
/// subject, code and counter are those of the reply, and so is the code of
/// the check of the image's URL. So the codes are documented ones exactly
/// where those of the reply are.
pub proof fn image_reply_is_kept(body: Seq<u8>)
    requires
        image_response_of(body) is Some,
    ensures
        json_document(body) is Some,
        text_member(json_document(body)->Some_0, "image_url"@) == Some(
            image_response_of(body)->Some_0.image_url,
        ),
        code_member(json_document(body)->Some_0, "result"@) == Some(
            image_response_of(body)->Some_0.result,
        ),
        code_member(json_document(body)->Some_0, "checks_remaining"@) == Some(
            image_response_of(body)->Some_0.checks_remaining,
        ),
        code_member(
            json_member(
                json_member(json_document(body)->Some_0, "analysis"@)->Some_0,
                "link"@,
            )->Some_0,
            "result"@,
        ) == Some(image_response_of(body)->Some_0.analysis.link.result),
        image_response_of(body)->Some_0.has_documented_codes() <==> {
            &&& is_verdict_code(code_member(json_document(body)->Some_0, "result"@)->Some_0)
            &&& code_member(json_document(body)->Some_0, "checks_remaining"@)->Some_0 >= 0
            &&& is_nested_link_code(
                code_member(
                    json_member(
                        json_member(json_document(body)->Some_0, "analysis"@)->Some_0,
                        "link"@,
                    )->Some_0,
                    "result"@,
                )->Some_0,
            )
        },
{
}

/// `outcome` is the error `error`.
pub open spec fn ends_in<V>(outcome: Result<V, CheckError>, error: CheckError) -> bool {
    outcome is Err && outcome->Err_0 == error
}

/// A reply that is no JSON document ends every check in a decode error:
/// never in a record, and never in a transport error.
pub proof fn unreadable_reply_is_a_decode_error(reply: Reply)
    requires
        reply is Body,
        json_document(reply->Body_0@) is None,
    ensures
        ends_in(link_result_of(reply), CheckError::Decode),
        ends_in(email_result_of(reply), CheckError::Decode),
        ends_in(message_result_of(reply), CheckError::Decode),
        ends_in(image_result_of(reply), CheckError::Decode),
{
}

/// A failed exchange ends every check in a transport error, and nothing
/// else does.
pub proof fn transport_error_means_failed_exchange(reply: Reply)
    ensures
        reply is Failed <==> ends_in(link_result_of(reply), CheckError::Transport),
        reply is Failed <==> ends_in(email_result_of(reply), CheckError::Transport),
        reply is Failed <==> ends_in(message_result_of(reply), CheckError::Transport),
        reply is Failed <==> ends_in(image_result_of(reply), CheckError::Transport),
{
}

} // verus!
