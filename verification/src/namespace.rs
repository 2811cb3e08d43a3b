//! The rule for namespaces: excluded by name, or labelled for injection.

use crate::resource::{decode_namespace, decoded_namespace, decoded_view, Metadata, MetadataView};
use crate::settings::{Settings, SettingsView};
use crate::verdict::{verdict_of, Finding, Verdict, VerdictView};
use vstd::prelude::*;

verus! {

/// The reason given for refusing the namespace `name`.
pub open spec fn rejection_text(name: Seq<char>) -> Seq<char> {
    "Namespace '"@ + name + "' is not istio enabled."@
}

/// What the rule finds in a namespace. The exclusion list is asked before the
/// labels, so an excluded namespace is found excluded whatever it carries.
pub open spec fn namespace_finding(settings: SettingsView, decoded: Option<MetadataView>) -> Finding {
    match decoded {
        None => Finding::MalformedBody,
        Some(metadata) => match metadata.name {
            None => Finding::MissingName,
            Some(name) => if settings.excluded_namespaces.contains(name) {
                Finding::ExcludedNamespace
            } else if metadata.label_map().contains_pair("istio-injection"@, "enabled"@) {
                Finding::InjectionEnabled
            } else {
                Finding::InjectionMissing
            },
        },
    }
}

/// The reason that a refusal of the namespace would give; none where the
/// namespace has no name to give it with.
pub open spec fn namespace_reason(decoded: Option<MetadataView>) -> Option<Seq<char>> {
    match decoded {
        Some(metadata) => match metadata.name {
            Some(name) => Some(rejection_text(name)),
            None => None,
        },
        None => None,
    }
}

/// The verdict on a namespace: refused, with the reason, where injection is
/// missing; accepted otherwise.
pub open spec fn namespace_verdict(
    settings: SettingsView,
    decoded: Option<MetadataView>,
) -> VerdictView {
    verdict_of(namespace_finding(settings, decoded), namespace_reason(decoded))
}

/// Writes the reason for refusing the namespace `name`.
pub fn rejection_message(name: &str) -> (message: String)
    ensures
        message@ == rejection_text(name@),
{
    String::from_str("Namespace '").concat(name).concat("' is not istio enabled.")
}

/// Finds which branch of the namespace rule settles `decoded`.
pub fn inspect_namespace(settings: &Settings, decoded: &Option<Metadata>) -> (finding: Finding)
    ensures
        finding == namespace_finding(settings@, decoded_view(*decoded)),
{
    match decoded {
        None => Finding::MalformedBody,
        Some(metadata) => match &metadata.name {
            None => Finding::MissingName,
            Some(name) => {
                if settings.excludes_namespace(name.as_str()) {
                    Finding::ExcludedNamespace
                } else if metadata.labels().contains_pair("istio-injection", "enabled") {
                    Finding::InjectionEnabled
                } else {
                    Finding::InjectionMissing
                }
            },
        },
    }
}

/// Gives the verdict on a namespace that was decoded, or could not be.
pub fn judge_namespace(settings: &Settings, decoded: Option<Metadata>) -> (verdict: Verdict)
    ensures
        verdict@ == namespace_verdict(settings@, decoded_view(decoded)),
{
    let finding = inspect_namespace(settings, &decoded);
    let reason = match decoded {
        Some(metadata) => match metadata.name {
            Some(name) => Some(rejection_message(name.as_str())),
            None => None,
        },
        None => None,
    };
    finding.verdict(reason)
}

/// Decodes `body` as a namespace and gives the verdict on it. A body that is
/// no namespace is accepted.
pub fn check_namespace(settings: &Settings, body: serde_json::Value) -> (verdict: Verdict)
    ensures
        verdict@ == namespace_verdict(settings@, decoded_namespace(body)),
{
    judge_namespace(settings, decode_namespace(body))
}

} // verus!
