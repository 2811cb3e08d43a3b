//! Routing of a request to the rule for its kind.

use crate::namespace::{check_namespace, inspect_namespace, namespace_finding, namespace_verdict};
use crate::pod::{check_pod, inspect_pod, pod_finding, pod_verdict};
use crate::resource::{decode_namespace, decode_pod, decoded_namespace, decoded_pod, MetadataView};
use crate::settings::{Settings, SettingsView};
use crate::verdict::{Finding, Verdict, VerdictView};
use vstd::prelude::*;

verus! {

/// The kinds of resource that the rules tell apart.
#[derive(Debug, Clone, Copy, PartialEq, Eq, Structural)]
pub enum ResourceKind {
    Namespace,
    Pod,
    /// Every kind for which no rule is written.
    Other,
}

/// The kind that a request declares by the text `kind`, letter for letter.
pub open spec fn kind_of(kind: Seq<char>) -> ResourceKind {
    if kind == "Namespace"@ {
        ResourceKind::Namespace
    } else if kind == "Pod"@ {
        ResourceKind::Pod
    } else {
        ResourceKind::Other
    }
}

/// What is found in a request of kind `kind`, given what its body decodes to
/// as a namespace and as a pod.
pub open spec fn request_finding(
    settings: SettingsView,
    kind: Seq<char>,
    as_namespace: Option<MetadataView>,
    as_pod: Option<MetadataView>,
) -> Finding {
    match kind_of(kind) {
        ResourceKind::Namespace => namespace_finding(settings, as_namespace),
        ResourceKind::Pod => pod_finding(settings, as_pod),
        ResourceKind::Other => Finding::UnrecognizedKind,
    }
}

/// The verdict on a request of kind `kind`, given what its body decodes to as
/// a namespace and as a pod.
pub open spec fn request_verdict(
    settings: SettingsView,
    kind: Seq<char>,
    as_namespace: Option<MetadataView>,
    as_pod: Option<MetadataView>,
) -> VerdictView {
    match kind_of(kind) {
        ResourceKind::Namespace => namespace_verdict(settings, as_namespace),
        ResourceKind::Pod => pod_verdict(settings, as_pod),
        ResourceKind::Other => VerdictView::Accept,
    }
}

/// Tells the kind that the text `kind` declares.
pub fn classify(kind: &str) -> (resource: ResourceKind)
    ensures
        resource == kind_of(kind@),
{
    let declared = String::from_str(kind);
    if declared == String::from_str("Namespace") {
        ResourceKind::Namespace
    } else if declared == String::from_str("Pod") {
        ResourceKind::Pod
    } else {
        ResourceKind::Other
    }
}

/// Finds which branch of the rules settles the request.
pub fn inspect(settings: &Settings, kind: &str, body: serde_json::Value) -> (finding: Finding)
    ensures
        finding == request_finding(settings@, kind@, decoded_namespace(body), decoded_pod(body)),
{
    match classify(kind) {
        ResourceKind::Namespace => inspect_namespace(settings, &decode_namespace(body)),
        ResourceKind::Pod => inspect_pod(settings, &decode_pod(body)),
        ResourceKind::Other => Finding::UnrecognizedKind,
    }
}

/// Gives the verdict on the request: the rule for its kind decides, and a kind
/// without a rule is accepted.
pub fn validate(settings: &Settings, kind: &str, body: serde_json::Value) -> (verdict: Verdict)
    ensures
        verdict@ == request_verdict(settings@, kind@, decoded_namespace(body), decoded_pod(body)),
{
    match classify(kind) {
        ResourceKind::Namespace => check_namespace(settings, body),
        ResourceKind::Pod => check_pod(settings, body),
        ResourceKind::Other => Verdict::Accept,
    }
}

} // verus!
