use safelyx::reply::{email_result, image_result, link_result, message_result, Reply};
use safelyx::request::{email_request, image_request, link_request, message_request};
use safelyx::{
    CheckError, DomainAnalysis, EmailAnalysis, ImageAnalysis, MessageAnalysis,
    MessageEmailAnalysis, MessageLinkAnalysis, SafeEmailResponse, SafeImageResponse,
    SafeLinkResponse, SafeMessageResponse,
};

const LINK_REPLY: &str = r#"{
    "url": "https://example.com",
    "result": 8,
    "result_text": "This link looks safe.",
    "date": "2025-01-01",
    "analysis": {
        "domain_reputation": "This domain wasn't found in any malicious lists.",
        "source_code": "This website appears to have basic HTML.",
        "anti_virus": "No viruses found."
    },
    "checks_remaining": 994
}"#;

const EMAIL_REPLY: &str = r#"{
    "email": "help@safelyx.com",
    "result": 10,
    "result_text": "This email looks legitimate.",
    "date": "2025-01-01",
    "analysis": {
        "address": "This email appears valid.",
        "domain_reputation": "This domain wasn't found in any malicious lists.",
        "mx_records": "This domain has valid MX records."
    },
    "checks_remaining": 993
}"#;

const MESSAGE_REPLY: &str = r#"{
    "message": "Hello, world!",
    "result": 9,
    "result_text": "This message appears to be safe.",
    "date": "2025-01-01",
    "analysis": {
        "content": "The message is a traditional greeting.",
        "sentiment": "The sentiment is positive.",
        "links": [],
        "emails": []
    },
    "checks_remaining": 992
}"#;

const IMAGE_REPLY: &str = r#"{
    "image_url": "https://www.google.com/images/branding/googlelogo/2x/googlelogo_color_272x92dp.png",
    "result": 9,
    "result_text": "This image appears to be safe.",
    "date": "2025-01-01",
    "analysis": {
        "description": "The image shows a colourful logo.",
        "link": {
            "url": "https://www.google.com/images/branding/googlelogo/2x/googlelogo_color_272x92dp.png",
            "result": 10,
            "date": "2025-01-01",
            "analysis": {
                "domain_reputation": "This domain wasn't found in any malicious lists.",
                "source_code": "This is not a website.",
                "anti_virus": "No viruses found."
            }
        }
    },
    "checks_remaining": 991
}"#;

fn body(text: &str) -> Reply {
    Reply::Body(text.as_bytes().to_vec())
}

fn domain(a: &str, b: &str, c: &str) -> DomainAnalysis {
    DomainAnalysis {
        domain_reputation: a.to_string(),
        source_code: b.to_string(),
        anti_virus: c.to_string(),
    }
}

#[test]
fn test_check_link() {
    let test_key_code = "test-key".to_string();
    let test_url = "example.com";
    let request = link_request(test_url, Some(&test_key_code));
    assert_eq!(request.url, "https://safelyx.com/safe-link-checker");

    let parsed_url = link_result(&body(LINK_REPLY)).expect("Failed to check link");

    assert_eq!(parsed_url.url, "https://example.com");
    assert!(parsed_url.result == -2 || (0..=10).contains(&parsed_url.result));
    assert!(!parsed_url.result_text.is_empty());
    assert!(!parsed_url.date.is_empty());
    assert!(!parsed_url.analysis.domain_reputation.is_empty());
    assert!(!parsed_url.analysis.source_code.is_empty());
    assert!(!parsed_url.analysis.anti_virus.is_empty());
    assert!(parsed_url.checks_remaining >= 0);
}

#[test]
fn test_check_email() {
    let test_key_code = "test-key".to_string();
    let test_email = "help@safelyx.com";
    let request = email_request(test_email, Some(&test_key_code));
    assert_eq!(request.url, "https://safelyx.com/safe-email-checker");

    let parsed_email = email_result(&body(EMAIL_REPLY)).expect("Failed to check email");

    assert_eq!(parsed_email.email, "help@safelyx.com");
    assert!(parsed_email.result == -2 || (8..=10).contains(&parsed_email.result));
    assert!(!parsed_email.result_text.is_empty());
    assert!(!parsed_email.date.is_empty());
    assert!(!parsed_email.analysis.address.is_empty());
    assert!(!parsed_email.analysis.domain_reputation.is_empty());
    assert!(!parsed_email.analysis.mx_records.is_empty());
    assert!(parsed_email.checks_remaining >= 0);
}

#[test]
fn test_check_message() {
    let test_key_code = "test-key".to_string();
    let test_message = "Hello, world!";
    let request = message_request(test_message, false, Some(&test_key_code));
    assert_eq!(request.url, "https://safelyx.com/safe-message-checker");

    let parsed_message = message_result(&body(MESSAGE_REPLY)).expect("Failed to check message");

    assert_eq!(parsed_message.message, "Hello, world!");
    assert!(parsed_message.result == -2 || (8..=10).contains(&parsed_message.result));
    assert!(!parsed_message.result_text.is_empty());
    assert!(!parsed_message.date.is_empty());
    assert!(!parsed_message.analysis.content.is_empty());
    assert!(!parsed_message.analysis.sentiment.is_empty());
    assert!(parsed_message.checks_remaining >= 0);
}

#[test]
fn test_check_image() {
    let test_key_code = "test-key".to_string();
    let test_image_url =
        "https://www.google.com/images/branding/googlelogo/2x/googlelogo_color_272x92dp.png";
    let request = image_request(test_image_url, Some(&test_key_code));
    assert_eq!(request.url, "https://safelyx.com/safe-image-checker");

    let parsed_image = image_result(&body(IMAGE_REPLY)).expect("Failed to check image");

    assert_eq!(parsed_image.image_url, test_image_url);
    assert!(parsed_image.result == -2 || (8..=10).contains(&parsed_image.result));
    assert!(!parsed_image.date.is_empty());
    assert!(!parsed_image.analysis.description.is_empty());
    assert!(!parsed_image.analysis.link.url.is_empty());
    assert!(
        parsed_image.analysis.link.result == -2
            || parsed_image.analysis.link.result == -1
            || (8..=10).contains(&parsed_image.analysis.link.result)
    );
    assert!(!parsed_image.analysis.link.date.is_empty());
    assert!(!parsed_image.analysis.link.analysis.domain_reputation.is_empty());
    assert!(!parsed_image.analysis.link.analysis.source_code.is_empty());
    assert!(!parsed_image.analysis.link.analysis.anti_virus.is_empty());
    assert!(parsed_image.checks_remaining >= 0);
}

#[test]
fn link_reply_decodes_field_by_field() {
    let record = SafeLinkResponse::decode(LINK_REPLY.as_bytes()).unwrap();
    assert_eq!(
        record,
        SafeLinkResponse {
            url: "https://example.com".to_string(),
            result: 8,
            result_text: "This link looks safe.".to_string(),
            date: "2025-01-01".to_string(),
            analysis: domain(
                "This domain wasn't found in any malicious lists.",
                "This website appears to have basic HTML.",
                "No viruses found.",
            ),
            checks_remaining: 994,
        }
    );
}

#[test]
fn email_reply_decodes_field_by_field() {
    let record = SafeEmailResponse::decode(EMAIL_REPLY.as_bytes()).unwrap();
    assert_eq!(
        record,
        SafeEmailResponse {
            email: "help@safelyx.com".to_string(),
            result: 10,
            result_text: "This email looks legitimate.".to_string(),
            date: "2025-01-01".to_string(),
            analysis: EmailAnalysis {
                address: "This email appears valid.".to_string(),
                domain_reputation: "This domain wasn't found in any malicious lists.".to_string(),
                mx_records: "This domain has valid MX records.".to_string(),
            },
            checks_remaining: 993,
        }
    );
}

#[test]
fn image_reply_decodes_field_by_field() {
    let url = "https://www.google.com/images/branding/googlelogo/2x/googlelogo_color_272x92dp.png";
    let record = SafeImageResponse::decode(IMAGE_REPLY.as_bytes()).unwrap();
    assert_eq!(
        record,
        SafeImageResponse {
            image_url: url.to_string(),
            result: 9,
            date: "2025-01-01".to_string(),
            analysis: ImageAnalysis {
                description: "The image shows a colourful logo.".to_string(),
                link: MessageLinkAnalysis {
                    url: url.to_string(),
                    result: 10,
                    date: "2025-01-01".to_string(),
                    analysis: domain(
                        "This domain wasn't found in any malicious lists.",
                        "This is not a website.",
                        "No viruses found.",
                    ),
                },
            },
            checks_remaining: 991,
        }
    );
}

#[test]
fn image_reply_needs_no_result_text() {
    let reply = r#"{"image_url":"u","result":-2,"date":"d",
        "analysis":{"description":"x","link":{"url":"u","result":-1,"date":"d",
        "analysis":{"domain_reputation":"a","source_code":"b","anti_virus":"c"}}},
        "checks_remaining":0}"#;
    let record = image_result(&body(reply)).unwrap();
    assert_eq!(record.result, -2);
    assert_eq!(record.analysis.link.result, -1);
    assert_eq!(record.checks_remaining, 0);
}

#[test]
fn message_reply_keeps_nested_checks_in_order() {
    let reply = r#"{
        "message": "see https://a.example and https://b.example, write to x@a.example",
        "result": 8,
        "result_text": "ok",
        "date": "2025-02-02",
        "analysis": {
            "content": "c",
            "sentiment": "s",
            "links": [
                {"url": "https://a.example", "result": 3, "date": "d1",
                 "analysis": {"domain_reputation": "r1", "source_code": "s1", "anti_virus": "v1"}},
                {"url": "https://b.example", "result": -1, "date": "d2",
                 "analysis": {"domain_reputation": "r2", "source_code": "s2", "anti_virus": "v2"}}
            ],
            "emails": [
                {"email": "x@a.example", "result": 10, "date": "d3",
                 "analysis": {"address": "a3", "domain_reputation": "r3", "mx_records": "m3"}}
            ]
        },
        "checks_remaining": 7
    }"#;
    let record = SafeMessageResponse::decode(reply.as_bytes()).unwrap();
    assert_eq!(
        record.analysis,
        MessageAnalysis {
            content: "c".to_string(),
            sentiment: "s".to_string(),
            links: vec![
                MessageLinkAnalysis {
                    url: "https://a.example".to_string(),
                    result: 3,
                    date: "d1".to_string(),
                    analysis: domain("r1", "s1", "v1"),
                },
                MessageLinkAnalysis {
                    url: "https://b.example".to_string(),
                    result: -1,
                    date: "d2".to_string(),
                    analysis: domain("r2", "s2", "v2"),
                },
            ],
            emails: vec![MessageEmailAnalysis {
                email: "x@a.example".to_string(),
                result: 10,
                date: "d3".to_string(),
                analysis: EmailAnalysis {
                    address: "a3".to_string(),
                    domain_reputation: "r3".to_string(),
                    mx_records: "m3".to_string(),
                },
            }],
        }
    );
    assert_eq!(record.checks_remaining, 7);
}

#[test]
fn echoed_subject_is_kept_as_the_service_sent_it() {
    let reply = LINK_REPLY.replace("https://example.com", "  HTTPS://Example.COM/\\u00e9 ");
    let record = link_result(&body(&reply)).unwrap();
    assert_eq!(record.url, "  HTTPS://Example.COM/\u{e9} ");
}

#[test]
fn codes_are_passed_through_unjudged() {
    let reply = LINK_REPLY.replace("\"result\": 8", "\"result\": 55").replace("994", "-3");
    let record = link_result(&body(&reply)).unwrap();
    assert_eq!(record.result, 55);
    assert_eq!(record.checks_remaining, -3);

    let skipped = EMAIL_REPLY.replace("\"result\": 10", "\"result\": -2");
    assert_eq!(email_result(&body(&skipped)).unwrap().result, -2);
}

#[test]
fn extreme_codes_that_fit_are_kept() {
    let low = LINK_REPLY.replace("\"result\": 8", "\"result\": -2147483648");
    assert_eq!(link_result(&body(&low)).unwrap().result, i32::MIN);
    let high = LINK_REPLY.replace("994", "2147483647");
    assert_eq!(link_result(&body(&high)).unwrap().checks_remaining, i32::MAX);
}

#[test]
fn codes_that_do_not_fit_are_decode_errors() {
    let high = LINK_REPLY.replace("\"result\": 8", "\"result\": 2147483648");
    assert_eq!(link_result(&body(&high)), Err(CheckError::Decode));
    let low = LINK_REPLY.replace("994", "-2147483649");
    assert_eq!(link_result(&body(&low)), Err(CheckError::Decode));
    let huge = LINK_REPLY.replace("994", "18446744073709551615");
    assert_eq!(link_result(&body(&huge)), Err(CheckError::Decode));
}

#[test]
fn fractions_are_decode_errors() {
    let reply = LINK_REPLY.replace("\"result\": 8", "\"result\": 8.0");
    assert_eq!(link_result(&body(&reply)), Err(CheckError::Decode));
    let reply = LINK_REPLY.replace("\"result\": 8", "\"result\": 8.5");
    assert_eq!(link_result(&body(&reply)), Err(CheckError::Decode));
}

#[test]
fn unknown_members_are_ignored() {
    let reply = LINK_REPLY.replacen('{', "{\"extra\": [1, {\"deep\": null}], ", 1);
    let with = link_result(&body(&reply)).unwrap();
    let without = link_result(&body(LINK_REPLY)).unwrap();
    assert_eq!(with, without);
}

#[test]
fn later_of_two_members_of_one_name_counts() {
    let reply = LINK_REPLY.replacen('{', "{\"result\": 1, \"url\": 5, ", 1);
    let record = link_result(&body(&reply)).unwrap();
    assert_eq!(record.result, 8);
    assert_eq!(record.url, "https://example.com");
}

#[test]
fn truncated_reply_is_a_decode_error() {
    let cut = &LINK_REPLY[..LINK_REPLY.len() / 2];
    assert_eq!(link_result(&body(cut)), Err(CheckError::Decode));
    assert_eq!(email_result(&body(&EMAIL_REPLY[..40])), Err(CheckError::Decode));
    assert_eq!(message_result(&body(&MESSAGE_REPLY[..40])), Err(CheckError::Decode));
    assert_eq!(image_result(&body(&IMAGE_REPLY[..40])), Err(CheckError::Decode));
}

#[test]
fn empty_reply_is_a_decode_error() {
    assert_eq!(link_result(&Reply::Body(Vec::new())), Err(CheckError::Decode));
    assert_eq!(SafeLinkResponse::decode(b""), Err(CheckError::Decode));
}

#[test]
fn reply_that_is_not_utf8_is_a_decode_error() {
    assert_eq!(link_result(&Reply::Body(vec![0xff, 0xfe, 0x00])), Err(CheckError::Decode));
}

#[test]
fn trailing_text_is_a_decode_error() {
    let reply = format!("{} trailing", LINK_REPLY);
    assert_eq!(link_result(&body(&reply)), Err(CheckError::Decode));
}

#[test]
fn reply_that_is_no_object_is_a_decode_error() {
    for text in ["null", "true", "12", "\"text\"", "[]", "[\"u\", 1, \"t\", \"d\", {}, 2]"] {
        assert_eq!(link_result(&body(text)), Err(CheckError::Decode));
        assert_eq!(email_result(&body(text)), Err(CheckError::Decode));
        assert_eq!(message_result(&body(text)), Err(CheckError::Decode));
        assert_eq!(image_result(&body(text)), Err(CheckError::Decode));
    }
}

#[test]
fn reply_of_another_operation_is_a_decode_error() {
    assert_eq!(link_result(&body(EMAIL_REPLY)), Err(CheckError::Decode));
    assert_eq!(email_result(&body(LINK_REPLY)), Err(CheckError::Decode));
    assert_eq!(message_result(&body(IMAGE_REPLY)), Err(CheckError::Decode));
    assert_eq!(image_result(&body(MESSAGE_REPLY)), Err(CheckError::Decode));
}

#[test]
fn each_missing_member_is_a_decode_error() {
    for name in ["url", "result", "result_text", "date", "analysis", "checks_remaining"] {
        let mut value: serde_json::Value = serde_json::from_str(LINK_REPLY).unwrap();
        value.as_object_mut().unwrap().remove(name).unwrap();
        assert_eq!(SafeLinkResponse::from_json(&value), Err(CheckError::Decode));
    }
    for name in ["domain_reputation", "source_code", "anti_virus"] {
        let mut value: serde_json::Value = serde_json::from_str(LINK_REPLY).unwrap();
        value["analysis"].as_object_mut().unwrap().remove(name).unwrap();
        assert_eq!(SafeLinkResponse::from_json(&value), Err(CheckError::Decode));
    }
    for name in ["content", "sentiment", "links", "emails"] {
        let mut value: serde_json::Value = serde_json::from_str(MESSAGE_REPLY).unwrap();
        value["analysis"].as_object_mut().unwrap().remove(name).unwrap();
        assert_eq!(SafeMessageResponse::from_json(&value), Err(CheckError::Decode));
    }
    for name in ["description", "link"] {
        let mut value: serde_json::Value = serde_json::from_str(IMAGE_REPLY).unwrap();
        value["analysis"].as_object_mut().unwrap().remove(name).unwrap();
        assert_eq!(SafeImageResponse::from_json(&value), Err(CheckError::Decode));
    }
}

#[test]
fn member_of_the_wrong_type_is_a_decode_error() {
    let reply = LINK_REPLY.replace("\"result\": 8", "\"result\": \"8\"");
    assert_eq!(link_result(&body(&reply)), Err(CheckError::Decode));
    let reply = LINK_REPLY.replace("\"2025-01-01\"", "20250101");
    assert_eq!(link_result(&body(&reply)), Err(CheckError::Decode));
    let reply = LINK_REPLY.replace("\"This link looks safe.\"", "null");
    assert_eq!(link_result(&body(&reply)), Err(CheckError::Decode));
    let reply = MESSAGE_REPLY.replace("\"links\": []", "\"links\": {}");
    assert_eq!(message_result(&body(&reply)), Err(CheckError::Decode));
    let reply = MESSAGE_REPLY.replace("\"emails\": []", "\"emails\": \"none\"");
    assert_eq!(message_result(&body(&reply)), Err(CheckError::Decode));
}

#[test]
fn one_bad_nested_check_is_a_decode_error() {
    let good = "{\"url\": \"u\", \"result\": 9, \"date\": \"d\", \"analysis\": \
        {\"domain_reputation\": \"a\", \"source_code\": \"b\", \"anti_virus\": \"c\"}}";
    let bad = "{\"url\": \"u\", \"date\": \"d\", \"analysis\": \
        {\"domain_reputation\": \"a\", \"source_code\": \"b\", \"anti_virus\": \"c\"}}";
    let both = format!("\"links\": [{}, {}]", good, bad);
    let reply = MESSAGE_REPLY.replace("\"links\": []", &both);
    assert_eq!(message_result(&body(&reply)), Err(CheckError::Decode));
    let fine = format!("\"links\": [{}, {}]", good, good);
    let reply = MESSAGE_REPLY.replace("\"links\": []", &fine);
    assert_eq!(message_result(&body(&reply)).unwrap().analysis.links.len(), 2);
}

#[test]
fn failed_exchange_is_a_transport_error() {
    assert_eq!(link_result(&Reply::Failed), Err(CheckError::Transport));
    assert_eq!(email_result(&Reply::Failed), Err(CheckError::Transport));
    assert_eq!(message_result(&Reply::Failed), Err(CheckError::Transport));
    assert_eq!(image_result(&Reply::Failed), Err(CheckError::Transport));
}

#[test]
fn nested_records_decode_from_parsed_values() {
    let value: serde_json::Value = serde_json::from_str(
        r#"{"domain_reputation": "a", "source_code": "b", "anti_virus": "c", "more": 1}"#,
    )
    .unwrap();
    assert_eq!(DomainAnalysis::from_json(&value), Ok(domain("a", "b", "c")));
    assert_eq!(EmailAnalysis::from_json(&value), Err(CheckError::Decode));

    let value: serde_json::Value = serde_json::from_str(
        r#"{"address": "a", "domain_reputation": "b", "mx_records": "c"}"#,
    )
    .unwrap();
    assert_eq!(
        EmailAnalysis::from_json(&value),
        Ok(EmailAnalysis {
            address: "a".to_string(),
            domain_reputation: "b".to_string(),
            mx_records: "c".to_string(),
        })
    );

    let value: serde_json::Value = serde_json::from_str(
        r#"{"email": "e", "result": 8, "date": "d",
            "analysis": {"address": "a", "domain_reputation": "b", "mx_records": "c"}}"#,
    )
    .unwrap();
    let nested = MessageEmailAnalysis::from_json(&value).unwrap();
    assert_eq!(nested.email, "e");
    assert_eq!(nested.result, 8);
    assert_eq!(MessageLinkAnalysis::from_json(&value), Err(CheckError::Decode));
    assert_eq!(MessageAnalysis::from_json(&value), Err(CheckError::Decode));
    assert_eq!(ImageAnalysis::from_json(&value), Err(CheckError::Decode));
}
