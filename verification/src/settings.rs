//! The operator's exclusion lists.

use crate::text_map::TextMap;
use vstd::prelude::*;

verus! {

/// What the operator exempts from the rules.
#[derive(Debug)]
pub struct Settings {
    /// Names of the namespaces that need no injection label.
    pub excluded_namespaces: Vec<String>,
    /// Label pairs that exempt a pod which carries one of them.
    pub excluded_pod_labels: TextMap,
}

/// Settings as mathematical values.
pub struct SettingsView {
    pub excluded_namespaces: Seq<Seq<char>>,
    pub excluded_pod_labels: Map<Seq<char>, Seq<char>>,
}

/// The strings of `names`, each taken as its characters.
pub open spec fn text_views(names: Seq<String>) -> Seq<Seq<char>> {
    Seq::new(names.len(), |i: int| names[i]@)
}

impl View for Settings {
    type V = SettingsView;

    open spec fn view(&self) -> SettingsView {
        SettingsView {
            excluded_namespaces: text_views(self.excluded_namespaces@),
            excluded_pod_labels: self.excluded_pod_labels@,
        }
    }
}

impl Default for Settings {
    /// Settings that exclude nothing.
    fn default() -> (settings: Settings)
        ensures
            settings@.excluded_namespaces == Seq::<Seq<char>>::empty(),
            settings@.excluded_pod_labels == Map::<Seq<char>, Seq<char>>::empty(),
    {
        let settings = Settings { excluded_namespaces: Vec::new(), excluded_pod_labels: TextMap::new() };
        assert(settings@.excluded_namespaces =~= Seq::<Seq<char>>::empty());
        settings
    }
}

impl Settings {
    /// Every choice of exclusion lists is valid.
    pub fn validate(&self) -> (outcome: Result<(), String>)
        ensures
            outcome is Ok,
    {
        Ok(())
    }

    /// Whether `name` is one of the excluded namespaces, letter for letter.
    pub fn excludes_namespace(&self, name: &str) -> (excluded: bool)
        ensures
            excluded == self@.excluded_namespaces.contains(name@),
    {
        let wanted = String::from_str(name);
        let mut i: usize = 0;
        while i < self.excluded_namespaces.len()
            invariant
                i <= self.excluded_namespaces@.len(),
                wanted@ == name@,
                forall|j: int| 0 <= j < i ==> self@.excluded_namespaces[j] != name@,
            decreases self.excluded_namespaces@.len() - i,
        {
            if self.excluded_namespaces[i] == wanted {
                assert(self@.excluded_namespaces[i as int] == name@);
                return true;
            }
            i += 1;
        }
        false
    }
}

} // verus!
