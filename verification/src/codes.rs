//! The result codes that the service documents.
//!
//! The service alone decides what a code means, and decoding passes every
//! code through as it came. The predicates here are for callers who want to
//! know whether a record stays within what the service documents; no other
//! part of the library applies them.

use crate::records::{
    MessageAnalysis, MessageAnalysisView, MessageEmailAnalysis, MessageEmailAnalysisView,
    MessageLinkAnalysis, MessageLinkAnalysisView, SafeEmailResponse, SafeEmailResponseView,
    SafeImageResponse, SafeImageResponseView, SafeLinkResponse, SafeLinkResponseView,
    SafeMessageResponse, SafeMessageResponseView,
};
use vstd::prelude::*;

verus! {

/// The code with which the service says that it skipped a check.
pub const SKIPPED: i32 = -2;

/// The code with which the service says that it did not check a nested link.
pub const NOT_CHECKED: i32 = -1;

/// A code that the service documents for a link: skipped, or 0 to 10.
pub open spec fn is_link_code(code: i32) -> bool {
    code == SKIPPED || (0 <= code && code <= 10)
}

/// A code that the service documents for an email address, a message or an
/// image: skipped, or 8 to 10.
pub open spec fn is_verdict_code(code: i32) -> bool {
    code == SKIPPED || (8 <= code && code <= 10)
}

/// A code that the service documents for a link nested in a message or an
/// image: not checked, or a code of a link.
pub open spec fn is_nested_link_code(code: i32) -> bool {
    code == NOT_CHECKED || is_link_code(code)
}

impl SafeLinkResponseView {
    /// The code is one of a link and the counter is not negative.
    pub open spec fn has_documented_codes(self) -> bool {
        is_link_code(self.result) && self.checks_remaining >= 0
    }
}

impl SafeEmailResponseView {
    /// The code is a verdict and the counter is not negative.
    pub open spec fn has_documented_codes(self) -> bool {
        is_verdict_code(self.result) && self.checks_remaining >= 0
    }
}

impl MessageLinkAnalysisView {
    /// The code is one of a nested link.
    pub open spec fn has_documented_codes(self) -> bool {
        is_nested_link_code(self.result)
    }
}

impl MessageEmailAnalysisView {
    /// The code is a verdict.
    pub open spec fn has_documented_codes(self) -> bool {
        is_verdict_code(self.result)
    }
}

impl MessageAnalysisView {
    /// Every nested link and every nested address has a documented code.
    pub open spec fn has_documented_codes(self) -> bool {
        &&& forall|i: int|
            0 <= i < self.links.len() ==> (#[trigger] self.links[i]).has_documented_codes()
        &&& forall|i: int|
            0 <= i < self.emails.len() ==> (#[trigger] self.emails[i]).has_documented_codes()
    }
}

impl SafeMessageResponseView {
    /// The code is a verdict, the counter is not negative, and every nested
    /// check has a documented code.
    pub open spec fn has_documented_codes(self) -> bool {
        &&& is_verdict_code(self.result)
        &&& self.checks_remaining >= 0
        &&& self.analysis.has_documented_codes()
    }
}

impl SafeImageResponseView {
    /// The code is a verdict, the counter is not negative, and the check of
    /// the image's URL has a documented code.
    pub open spec fn has_documented_codes(self) -> bool {
        &&& is_verdict_code(self.result)
        &&& self.checks_remaining >= 0
        &&& self.analysis.link.has_documented_codes()
    }
}

/// Tells whether `code` is one that the service documents for a link.
pub fn link_code_is_documented(code: i32) -> (b: bool)
    ensures
        b == is_link_code(code),
{
    code == SKIPPED || (0 <= code && code <= 10)
}

/// Tells whether `code` is one that the service documents for an email
/// address, a message or an image.
pub fn verdict_code_is_documented(code: i32) -> (b: bool)
    ensures
        b == is_verdict_code(code),
{
    code == SKIPPED || (8 <= code && code <= 10)
}

impl SafeLinkResponse {
    /// Tells whether the record stays within what the service documents.
    pub fn has_documented_codes(&self) -> (b: bool)
        ensures
            b == self@.has_documented_codes(),
    {
        link_code_is_documented(self.result) && self.checks_remaining >= 0
    }
}

impl SafeEmailResponse {
    /// Tells whether the record stays within what the service documents.
    pub fn has_documented_codes(&self) -> (b: bool)
        ensures
            b == self@.has_documented_codes(),
    {
        verdict_code_is_documented(self.result) && self.checks_remaining >= 0
    }
}

impl MessageLinkAnalysis {
    /// Tells whether the record stays within what the service documents.
    pub fn has_documented_codes(&self) -> (b: bool)
        ensures
            b == self@.has_documented_codes(),
    {
        self.result == NOT_CHECKED || link_code_is_documented(self.result)
    }
}

impl MessageEmailAnalysis {
    /// Tells whether the record stays within what the service documents.
    pub fn has_documented_codes(&self) -> (b: bool)
        ensures
            b == self@.has_documented_codes(),
    {
        verdict_code_is_documented(self.result)
    }
}

impl MessageAnalysis {
    /// Tells whether every nested check stays within what the service
    /// documents.
    pub fn has_documented_codes(&self) -> (b: bool)
        ensures
            b == self@.has_documented_codes(),
    {
        let mut i: usize = 0;
        while i < self.links.len()
            invariant
                i <= self.links.len(),
                forall|j: int| 0 <= j < i ==> (#[trigger] self@.links[j]).has_documented_codes(),
            decreases self.links.len() - i,
        {
            if !self.links[i].has_documented_codes() {
                assert(!self@.links[i as int].has_documented_codes());
                return false;
            }
            i = i + 1;
        }
        let mut k: usize = 0;
        while k < self.emails.len()
            invariant
                k <= self.emails.len(),
                forall|j: int| 0 <= j < k ==> (#[trigger] self@.emails[j]).has_documented_codes(),
                forall|j: int|
                    0 <= j < self.links.len() ==> (
                    #[trigger] self@.links[j]).has_documented_codes(),
            decreases self.emails.len() - k,
        {
            if !self.emails[k].has_documented_codes() {
                assert(!self@.emails[k as int].has_documented_codes());
                return false;
            }
            k = k + 1;
        }
        true
    }
}

impl SafeMessageResponse {
    /// Tells whether the record stays within what the service documents.
    pub fn has_documented_codes(&self) -> (b: bool)
        ensures
            b == self@.has_documented_codes(),
    {
        verdict_code_is_documented(self.result) && self.checks_remaining >= 0
            && self.analysis.has_documented_codes()
    }
}

impl SafeImageResponse {
    /// Tells whether the record stays within what the service documents.
    pub fn has_documented_codes(&self) -> (b: bool)
        ensures
            b == self@.has_documented_codes(),
    {
        verdict_code_is_documented(self.result) && self.checks_remaining >= 0
            && self.analysis.link.has_documented_codes()
    }
}

} // verus!
