//! What holds of every request, stated over the verdict and the finding that
//! the rules assign to it.

use crate::dispatch::{kind_of, request_finding, request_verdict, ResourceKind};
use crate::namespace::rejection_text;
use crate::resource::MetadataView;
use crate::settings::SettingsView;
use crate::text_map::agree_somewhere;
use crate::verdict::{Finding, VerdictView};
use vstd::prelude::*;

verus! {

/// `part` stands somewhere in `text`, unbroken.
pub open spec fn mentions(text: Seq<char>, part: Seq<char>) -> bool {
    exists|at: int|
        0 <= at && at + part.len() <= text.len() && #[trigger] text.subrange(
            at,
            at + part.len(),
        ) == part
}

/// The two kinds that have a rule are told apart, and told from the rest.
pub proof fn law_kinds_are_told_apart()
    ensures
        kind_of("Namespace"@) == ResourceKind::Namespace,
        kind_of("Pod"@) == ResourceKind::Pod,
        forall|kind: Seq<char>|
            kind != "Namespace"@ && kind != "Pod"@ ==> #[trigger] kind_of(kind)
                == ResourceKind::Other,
{
    reveal_strlit("Namespace");
    reveal_strlit("Pod");
    assert("Namespace"@.len() != "Pod"@.len());
}

/// A request is refused exactly where a namespace is found to lack
/// injection; with every other finding it is accepted.
pub proof fn law_only_missing_injection_is_refused(
    settings: SettingsView,
    kind: Seq<char>,
    as_namespace: Option<MetadataView>,
    as_pod: Option<MetadataView>,
)
    ensures
        request_verdict(settings, kind, as_namespace, as_pod) == VerdictView::Accept
            <==> request_finding(settings, kind, as_namespace, as_pod).accepted(),
        request_finding(settings, kind, as_namespace, as_pod) == Finding::InjectionMissing
            ==> kind_of(kind) == ResourceKind::Namespace,
{
}

/// A namespace whose name is on the exclusion list is accepted, whatever its
/// labels are and whether it carries any.
pub proof fn law_excluded_namespace_is_accepted(
    settings: SettingsView,
    metadata: MetadataView,
    name: Seq<char>,
    as_pod: Option<MetadataView>,
)
    requires
        metadata.name == Some(name),
        settings.excluded_namespaces.contains(name),
    ensures
        request_verdict(settings, "Namespace"@, Some(metadata), as_pod) == VerdictView::Accept,
        request_finding(settings, "Namespace"@, Some(metadata), as_pod)
            == Finding::ExcludedNamespace,
{
}

/// A namespace that is not excluded and does not carry the label
/// `istio-injection` with the value `enabled` is refused, and the reason given
/// mentions its name.
pub proof fn law_unlabelled_namespace_is_refused(
    settings: SettingsView,
    metadata: MetadataView,
    name: Seq<char>,
    as_pod: Option<MetadataView>,
)
    requires
        metadata.name == Some(name),
        !settings.excluded_namespaces.contains(name),
        !metadata.label_map().contains_pair("istio-injection"@, "enabled"@),
    ensures
        request_verdict(settings, "Namespace"@, Some(metadata), as_pod) == VerdictView::Reject(
            Some(rejection_text(name)),
        ),
        mentions(rejection_text(name), name),
{
    let text = rejection_text(name);
    let at = "Namespace '"@.len() as int;
    assert(text.subrange(at, at + name.len()) =~= name);
}

/// A namespace that is not excluded and carries the label `istio-injection`
/// with the value `enabled`, among however many others, is accepted.
pub proof fn law_labelled_namespace_is_accepted(
    settings: SettingsView,
    metadata: MetadataView,
    name: Seq<char>,
    as_pod: Option<MetadataView>,
)
    requires
        metadata.name == Some(name),
        !settings.excluded_namespaces.contains(name),
        metadata.label_map().contains_pair("istio-injection"@, "enabled"@),
    ensures
        request_verdict(settings, "Namespace"@, Some(metadata), as_pod) == VerdictView::Accept,
        request_finding(settings, "Namespace"@, Some(metadata), as_pod)
            == Finding::InjectionEnabled,
{
}

/// A namespace without a name is accepted.
pub proof fn law_nameless_namespace_is_accepted(
    settings: SettingsView,
    metadata: MetadataView,
    as_pod: Option<MetadataView>,
)
    requires
        metadata.name is None,
    ensures
        request_verdict(settings, "Namespace"@, Some(metadata), as_pod) == VerdictView::Accept,
{
}

/// Every pod is accepted, and so is every body that is declared a pod.
pub proof fn law_every_pod_is_accepted(
    settings: SettingsView,
    as_namespace: Option<MetadataView>,
    as_pod: Option<MetadataView>,
)
    ensures
        request_verdict(settings, "Pod"@, as_namespace, as_pod) == VerdictView::Accept,
{
    law_kinds_are_told_apart();
}

/// A pod whose annotations are absent or empty is accepted, and nothing else
/// of it is asked.
pub proof fn law_pod_without_annotations_is_accepted(
    settings: SettingsView,
    metadata: MetadataView,
    as_namespace: Option<MetadataView>,
)
    requires
        metadata.annotations is None || metadata.annotations == Some(
            Map::<Seq<char>, Seq<char>>::empty(),
        ),
    ensures
        request_verdict(settings, "Pod"@, as_namespace, Some(metadata)) == VerdictView::Accept,
        request_finding(settings, "Pod"@, as_namespace, Some(metadata)) == Finding::NoAnnotations,
{
    law_kinds_are_told_apart();
}

/// A pod that carries an annotation and has a label that is one of the
/// excluded pairs is accepted on account of that label.
pub proof fn law_pod_with_excluded_label_is_accepted(
    settings: SettingsView,
    metadata: MetadataView,
    as_namespace: Option<MetadataView>,
    key: Seq<char>,
)
    requires
        !metadata.annotation_map().is_empty(),
        settings.excluded_pod_labels.contains_key(key),
        metadata.label_map().contains_pair(key, settings.excluded_pod_labels[key]),
    ensures
        request_verdict(settings, "Pod"@, as_namespace, Some(metadata)) == VerdictView::Accept,
        request_finding(settings, "Pod"@, as_namespace, Some(metadata))
            == Finding::ExcludedPodLabel,
{
    law_kinds_are_told_apart();
    assert(agree_somewhere(settings.excluded_pod_labels, metadata.label_map()));
}

/// A request of any kind but `Namespace` and `Pod` is accepted, whatever its
/// body holds.
pub proof fn law_other_kinds_are_accepted(
    settings: SettingsView,
    kind: Seq<char>,
    as_namespace: Option<MetadataView>,
    as_pod: Option<MetadataView>,
)
    requires
        kind != "Namespace"@,
        kind != "Pod"@,
    ensures
        request_verdict(settings, kind, as_namespace, as_pod) == VerdictView::Accept,
        request_finding(settings, kind, as_namespace, as_pod) == Finding::UnrecognizedKind,
{
}

/// A body that does not decode as the kind it is declared to be is accepted.
pub proof fn law_malformed_body_is_accepted(
    settings: SettingsView,
    kind: Seq<char>,
    as_namespace: Option<MetadataView>,
    as_pod: Option<MetadataView>,
)
    requires
        kind_of(kind) == ResourceKind::Namespace ==> as_namespace is None,
        kind_of(kind) == ResourceKind::Pod ==> as_pod is None,
    ensures
        request_verdict(settings, kind, as_namespace, as_pod) == VerdictView::Accept,
        kind_of(kind) != ResourceKind::Other ==> request_finding(
            settings,
            kind,
            as_namespace,
            as_pod,
        ) == Finding::MalformedBody,
{
}

} // verus!
