//! What a rule found in a request, and the verdict that follows from it.

use vstd::prelude::*;

verus! {

/// The terminal answer to one request.
#[derive(Debug, PartialEq, Eq)]
pub enum Verdict {
    /// The request may proceed.
    Accept,
    /// The request is refused, with the reason shown to its author.
    Reject(Option<String>),
}

/// A verdict, its message taken as a sequence of characters.
pub enum VerdictView {
    Accept,
    Reject(Option<Seq<char>>),
}

impl View for Verdict {
    type V = VerdictView;

    open spec fn view(&self) -> VerdictView {
        match self {
            Verdict::Accept => VerdictView::Accept,
            Verdict::Reject(Some(message)) => VerdictView::Reject(Some(message@)),
            Verdict::Reject(None) => VerdictView::Reject(None),
        }
    }
}

/// The branch of the rules that settled a request.
#[derive(Debug, Clone, Copy, PartialEq, Eq, Structural)]
pub enum Finding {
    /// No rule is written for the request's kind.
    UnrecognizedKind,
    /// The body is not a resource of the declared kind.
    MalformedBody,
    /// The namespace carries no name.
    MissingName,
    /// The namespace is on the exclusion list.
    ExcludedNamespace,
    /// The namespace is labelled for injection.
    InjectionEnabled,
    /// The namespace is neither excluded nor labelled for injection.
    InjectionMissing,
    /// The pod carries no annotation at all.
    NoAnnotations,
    /// One of the pod's labels is an excluded pair.
    ExcludedPodLabel,
    /// The pod carries the injection annotation; it is noted, not enforced.
    InjectAnnotated,
    /// The pod is annotated, not excluded, and says nothing of injection.
    NoObjection,
}

/// An optional message, taken as a sequence of characters.
pub open spec fn reason_view(reason: Option<String>) -> Option<Seq<char>> {
    match reason {
        Some(message) => Some(message@),
        None => None,
    }
}

/// The verdict that follows from `finding`: accepted, or refused with `reason`.
pub open spec fn verdict_of(finding: Finding, reason: Option<Seq<char>>) -> VerdictView {
    if finding.accepted() {
        VerdictView::Accept
    } else {
        VerdictView::Reject(reason)
    }
}

impl Finding {
    /// Only a namespace that lacks injection is refused.
    pub open spec fn accepted(self) -> bool {
        self != Finding::InjectionMissing
    }

    /// Whether a request with this finding may proceed.
    pub fn is_accepted(self) -> (accepted: bool)
        ensures
            accepted == self.accepted(),
    {
        match self {
            Finding::InjectionMissing => false,
            _ => true,
        }
    }

    /// The verdict that follows from this finding. `reason` is shown where the
    /// request is refused, and dropped where it is accepted.
    pub fn verdict(self, reason: Option<String>) -> (verdict: Verdict)
        ensures
            verdict@ == verdict_of(self, reason_view(reason)),
    {
        if self.is_accepted() {
            Verdict::Accept
        } else {
            Verdict::Reject(reason)
        }
    }
}

} // verus!
