use safelyx::codes::{link_code_is_documented, verdict_code_is_documented, NOT_CHECKED, SKIPPED};
use safelyx::{
    DomainAnalysis, EmailAnalysis, ImageAnalysis, MessageAnalysis, MessageEmailAnalysis,
    MessageLinkAnalysis, SafeEmailResponse, SafeImageResponse, SafeLinkResponse,
    SafeMessageResponse,
};

fn domain() -> DomainAnalysis {
    DomainAnalysis {
        domain_reputation: "r".to_string(),
        source_code: "s".to_string(),
        anti_virus: "v".to_string(),
    }
}

fn mail() -> EmailAnalysis {
    EmailAnalysis {
        address: "a".to_string(),
        domain_reputation: "r".to_string(),
        mx_records: "m".to_string(),
    }
}

fn link(result: i32, checks_remaining: i32) -> SafeLinkResponse {
    SafeLinkResponse {
        url: "u".to_string(),
        result,
        result_text: "t".to_string(),
        date: "d".to_string(),
        analysis: domain(),
        checks_remaining,
    }
}

fn email(result: i32, checks_remaining: i32) -> SafeEmailResponse {
    SafeEmailResponse {
        email: "e".to_string(),
        result,
        result_text: "t".to_string(),
        date: "d".to_string(),
        analysis: mail(),
        checks_remaining,
    }
}

fn nested_link(result: i32) -> MessageLinkAnalysis {
    MessageLinkAnalysis { url: "u".to_string(), result, date: "d".to_string(), analysis: domain() }
}

fn nested_email(result: i32) -> MessageEmailAnalysis {
    MessageEmailAnalysis {
        email: "e".to_string(),
        result,
        date: "d".to_string(),
        analysis: mail(),
    }
}

fn message(result: i32, links: Vec<i32>, emails: Vec<i32>) -> SafeMessageResponse {
    SafeMessageResponse {
        message: "m".to_string(),
        result,
        result_text: "t".to_string(),
        date: "d".to_string(),
        analysis: MessageAnalysis {
            content: "c".to_string(),
            sentiment: "s".to_string(),
            links: links.into_iter().map(nested_link).collect(),
            emails: emails.into_iter().map(nested_email).collect(),
        },
        checks_remaining: 1,
    }
}

fn image(result: i32, link_result: i32, checks_remaining: i32) -> SafeImageResponse {
    SafeImageResponse {
        image_url: "u".to_string(),
        result,
        date: "d".to_string(),
        analysis: ImageAnalysis { description: "x".to_string(), link: nested_link(link_result) },
        checks_remaining,
    }
}

#[test]
fn sentinel_codes_have_their_values() {
    assert_eq!(SKIPPED, -2);
    assert_eq!(NOT_CHECKED, -1);
}

#[test]
fn link_codes_are_skipped_or_zero_to_ten() {
    for code in -5..=15 {
        assert_eq!(link_code_is_documented(code), code == -2 || (0..=10).contains(&code));
    }
    assert!(!link_code_is_documented(i32::MIN));
    assert!(!link_code_is_documented(i32::MAX));
}

#[test]
fn verdict_codes_are_skipped_or_eight_to_ten() {
    for code in -5..=15 {
        assert_eq!(verdict_code_is_documented(code), code == -2 || (8..=10).contains(&code));
    }
}

#[test]
fn link_record_within_and_outside_the_documented_codes() {
    assert!(link(0, 0).has_documented_codes());
    assert!(link(10, 5).has_documented_codes());
    assert!(link(-2, 5).has_documented_codes());
    assert!(!link(-1, 5).has_documented_codes());
    assert!(!link(11, 5).has_documented_codes());
    assert!(!link(5, -1).has_documented_codes());
}

#[test]
fn email_record_within_and_outside_the_documented_codes() {
    assert!(email(8, 0).has_documented_codes());
    assert!(email(-2, 0).has_documented_codes());
    assert!(!email(7, 0).has_documented_codes());
    assert!(!email(-1, 0).has_documented_codes());
    assert!(!email(9, -1).has_documented_codes());
}

#[test]
fn nested_link_may_be_unchecked() {
    assert!(nested_link(-1).has_documented_codes());
    assert!(nested_link(-2).has_documented_codes());
    assert!(nested_link(0).has_documented_codes());
    assert!(nested_link(10).has_documented_codes());
    assert!(!nested_link(-3).has_documented_codes());
    assert!(!nested_link(11).has_documented_codes());
    assert!(!nested_email(-1).has_documented_codes());
    assert!(nested_email(9).has_documented_codes());
}

#[test]
fn message_record_looks_at_every_nested_check() {
    assert!(message(9, vec![], vec![]).has_documented_codes());
    assert!(message(9, vec![-1, 4, 10], vec![8, -2]).has_documented_codes());
    assert!(!message(9, vec![-1, 4, 11], vec![8, -2]).has_documented_codes());
    assert!(!message(9, vec![-1, 4, 10], vec![8, 7]).has_documented_codes());
    assert!(!message(7, vec![], vec![]).has_documented_codes());
    let mut record = message(9, vec![], vec![]);
    record.checks_remaining = -1;
    assert!(!record.has_documented_codes());
    assert!(record.analysis.has_documented_codes());
}

#[test]
fn image_record_looks_at_the_check_of_its_url() {
    for code in [-2, -1, 8, 9, 10] {
        assert!(image(9, code, 3).has_documented_codes());
    }
    assert!(!image(9, -3, 3).has_documented_codes());
    assert!(!image(7, 9, 3).has_documented_codes());
    assert!(!image(9, 9, -1).has_documented_codes());
}
