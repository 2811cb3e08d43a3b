//! Admission decisions for sidecar injection: a namespace must be labelled for
//! injection unless it is on the operator's exclusion list; pods are inspected
//! and never refused.

pub mod dispatch;
pub mod laws;
pub mod namespace;
pub mod pod;
pub mod resource;
pub mod settings;
pub mod text_map;
pub mod verdict;

pub use dispatch::{classify, inspect, validate, ResourceKind};
pub use namespace::{check_namespace, inspect_namespace, judge_namespace, rejection_message};
pub use pod::{check_pod, inspect_pod, judge_pod};
pub use resource::Metadata;
pub use settings::Settings;
pub use text_map::TextMap;
pub use verdict::{Finding, Verdict};
