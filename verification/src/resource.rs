//! The metadata of a resource, and its decoding from a request's body.

use crate::text_map::{pairs_to_map, text_pairs, TextMap};
use vstd::prelude::*;

verus! {

/// `serde_json::Value`, the document that a request carries as its body. It
/// is declared so that a body can be handed on to the decoders; nothing is
/// known here of what one holds.
#[verifier::external_type_specification]
#[verifier::external_body]
pub struct ExValue(serde_json::Value);

/// The part of a resource's metadata that the rules read. A field that the
/// body does not carry is `None`.
#[derive(Debug)]
pub struct Metadata {
    pub name: Option<String>,
    pub labels: Option<Vec<(String, String)>>,
    pub annotations: Option<Vec<(String, String)>>,
}

/// Metadata as mathematical values: labels and annotations are mappings.
pub struct MetadataView {
    pub name: Option<Seq<char>>,
    pub labels: Option<Map<Seq<char>, Seq<char>>>,
    pub annotations: Option<Map<Seq<char>, Seq<char>>>,
}

/// The mapping that an optional list of pairs denotes.
pub open spec fn optional_map(pairs: Option<Vec<(String, String)>>) -> Option<
    Map<Seq<char>, Seq<char>>,
> {
    match pairs {
        Some(held) => Some(pairs_to_map(text_pairs(held@))),
        None => None,
    }
}

/// An absent mapping counts as the empty one.
pub open spec fn or_empty(held: Option<Map<Seq<char>, Seq<char>>>) -> Map<Seq<char>, Seq<char>> {
    match held {
        Some(map) => map,
        None => Map::empty(),
    }
}

impl View for Metadata {
    type V = MetadataView;

    open spec fn view(&self) -> MetadataView {
        MetadataView {
            name: match self.name {
                Some(name) => Some(name@),
                None => None,
            },
            labels: optional_map(self.labels),
            annotations: optional_map(self.annotations),
        }
    }
}

impl MetadataView {
    /// The labels; none where the resource carries no label field.
    pub open spec fn label_map(self) -> Map<Seq<char>, Seq<char>> {
        or_empty(self.labels)
    }

    /// The annotations; none where the resource carries no annotation field.
    pub open spec fn annotation_map(self) -> Map<Seq<char>, Seq<char>> {
        or_empty(self.annotations)
    }
}

/// The mapping of an optional list of pairs, empty where the list is absent.
fn gather(pairs: &Option<Vec<(String, String)>>) -> (map: TextMap)
    ensures
        map@ == or_empty(optional_map(*pairs)),
{
    match pairs {
        Some(held) => TextMap::from_pairs(held),
        None => TextMap::new(),
    }
}

impl Metadata {
    /// The labels as a mapping, empty where the resource carries none.
    pub fn labels(&self) -> (map: TextMap)
        ensures
            map@ == self@.label_map(),
    {
        gather(&self.labels)
    }

    /// The annotations as a mapping, empty where the resource carries none.
    pub fn annotations(&self) -> (map: TextMap)
        ensures
            map@ == self@.annotation_map(),
    {
        gather(&self.annotations)
    }
}

/// What decoding gave, as mathematical values.
pub open spec fn decoded_view(decoded: Option<Metadata>) -> Option<MetadataView> {
    match decoded {
        Some(metadata) => Some(metadata@),
        None => None,
    }
}

/// The metadata of the namespace that `body` describes, or `None` where
/// `body` does not describe a namespace.
pub uninterp spec fn decoded_namespace(body: serde_json::Value) -> Option<MetadataView>;

/// The metadata of the pod that `body` describes, or `None` where `body` does
/// not describe a pod.
pub uninterp spec fn decoded_pod(body: serde_json::Value) -> Option<MetadataView>;

/// Calls `serde_json::from_value` at `k8s_openapi::api::core::v1::Namespace`.
/// Trusted, not proved: the outcome is a function of `body` alone. Where the
/// call succeeds, the name, the labels and the annotations of the decoded
/// metadata are handed on, each mapping as the list of its pairs; where it
/// fails, `None`.
#[verifier::external_body]
pub(crate) fn decode_namespace(body: serde_json::Value) -> (decoded: Option<Metadata>)
    ensures
        decoded_view(decoded) == decoded_namespace(body),
{
    match serde_json::from_value::<k8s_openapi::api::core::v1::Namespace>(body) {
        Ok(namespace) => Some(
            Metadata {
                name: namespace.metadata.name,
                labels: namespace.metadata.labels.map(|held| held.into_iter().collect()),
                annotations: namespace.metadata.annotations.map(|held| held.into_iter().collect()),
            },
        ),
        Err(_) => None,
    }
}

/// Calls `serde_json::from_value` at `k8s_openapi::api::core::v1::Pod`.
/// Trusted, not proved: the outcome is a function of `body` alone. Where the
/// call succeeds, the name, the labels and the annotations of the decoded
/// metadata are handed on, each mapping as the list of its pairs; where it
/// fails, `None`.
#[verifier::external_body]
pub(crate) fn decode_pod(body: serde_json::Value) -> (decoded: Option<Metadata>)
    ensures
        decoded_view(decoded) == decoded_pod(body),
{
    match serde_json::from_value::<k8s_openapi::api::core::v1::Pod>(body) {
        Ok(pod) => Some(
            Metadata {
                name: pod.metadata.name,
                labels: pod.metadata.labels.map(|held| held.into_iter().collect()),
                annotations: pod.metadata.annotations.map(|held| held.into_iter().collect()),
            },
        ),
        Err(_) => None,
    }
}

} // verus!
