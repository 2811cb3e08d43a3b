//! The rule for pods: what is found in a pod is told apart, and every pod is
//! accepted.

use crate::resource::{decode_pod, decoded_pod, decoded_view, Metadata, MetadataView};
use crate::settings::{Settings, SettingsView};
use crate::text_map::agree_somewhere;
use crate::verdict::{verdict_of, Finding, Verdict, VerdictView};
use vstd::prelude::*;

verus! {

/// What the rule finds in a pod, in the order in which it asks: no annotation
/// at all; else a label that is an excluded pair; else the injection
/// annotation.
pub open spec fn pod_finding(settings: SettingsView, decoded: Option<MetadataView>) -> Finding {
    match decoded {
        None => Finding::MalformedBody,
        Some(metadata) => if metadata.annotation_map().is_empty() {
            Finding::NoAnnotations
        } else if agree_somewhere(settings.excluded_pod_labels, metadata.label_map()) {
            Finding::ExcludedPodLabel
        } else if metadata.annotation_map().contains_key("sidecar.istio.io/inject"@) {
            Finding::InjectAnnotated
        } else {
            Finding::NoObjection
        },
    }
}

/// The verdict on a pod: the one that follows from what is found in it. No
/// finding on a pod refuses it, so no reason is kept for one.
pub open spec fn pod_verdict(settings: SettingsView, decoded: Option<MetadataView>) -> VerdictView {
    verdict_of(pod_finding(settings, decoded), None)
}

/// Finds which branch of the pod rule settles `decoded`.
pub fn inspect_pod(settings: &Settings, decoded: &Option<Metadata>) -> (finding: Finding)
    ensures
        finding == pod_finding(settings@, decoded_view(*decoded)),
{
    match decoded {
        None => Finding::MalformedBody,
        Some(metadata) => {
            let annotations = metadata.annotations();
            if annotations.is_empty() {
                Finding::NoAnnotations
            } else if settings.excluded_pod_labels.agrees_with(&metadata.labels()) {
                Finding::ExcludedPodLabel
            } else if annotations.contains_key("sidecar.istio.io/inject") {
                Finding::InjectAnnotated
            } else {
                Finding::NoObjection
            }
        },
    }
}

/// Gives the verdict on a pod that was decoded, or could not be.
pub fn judge_pod(settings: &Settings, decoded: Option<Metadata>) -> (verdict: Verdict)
    ensures
        verdict@ == pod_verdict(settings@, decoded_view(decoded)),
        verdict@ == VerdictView::Accept,
{
    inspect_pod(settings, &decoded).verdict(None)
}

/// Decodes `body` as a pod and gives the verdict on it. A body that is no pod
/// is accepted.
pub fn check_pod(settings: &Settings, body: serde_json::Value) -> (verdict: Verdict)
    ensures
        verdict@ == pod_verdict(settings@, decoded_pod(body)),
        verdict@ == VerdictView::Accept,
{
    judge_pod(settings, decode_pod(body))
}

} // verus!
