//! The rule loader: the rules admitted so far and the counts kept while loading.

use crate::config::StoredStatic;
use crate::document::pairs_view;
use crate::level::{standard_level_map, standard_ranks};
use crate::tables::{has_headroom, LabelMap, LabelSet};
use vstd::prelude::*;
use yaml_rust::Yaml;

verus! {

/// The loader of rule documents.
pub struct ParseYaml {
    /// The admitted rules in the order of their admission, each with the path of its file.
    pub files: Vec<(String, Yaml)>,
    /// How many rules of each rule type came through the status checks.
    pub rulecounter: LabelMap,
    /// How many rules were turned away as `excluded` and how many were listed as `noisy`.
    pub rule_load_cnt: LabelMap,
    /// How many rules of each status reached the status flags.
    pub rule_status_cnt: LabelMap,
    /// How many files could not be read or parsed.
    pub errorrule_count: u128,
    /// The status labels whose rules are always rejected.
    pub exclude_status: LabelSet,
    /// The ranks of the severity labels.
    pub level_map: LabelMap,
}

/// What a loader has gathered, as mathematical values.
pub struct Loaded {
    pub files: Seq<(Seq<char>, Yaml)>,
    pub rulecounter: Map<Seq<char>, u128>,
    pub rule_load_cnt: Map<Seq<char>, u128>,
    pub rule_status_cnt: Map<Seq<char>, u128>,
    pub errorrule_count: u128,
}

impl View for ParseYaml {
    type V = Loaded;

    open spec fn view(&self) -> Loaded {
        Loaded {
            files: pairs_view(self.files@),
            rulecounter: self.rulecounter@,
            rule_load_cnt: self.rule_load_cnt@,
            rule_status_cnt: self.rule_status_cnt@,
            errorrule_count: self.errorrule_count,
        }
    }
}

impl Loaded {
    /// Each of the three tables of counts can take `n` more rules.
    pub open spec fn has_room(self, n: nat) -> bool {
        &&& has_headroom(self.rulecounter, n)
        &&& has_headroom(self.rule_load_cnt, n)
        &&& has_headroom(self.rule_status_cnt, n)
    }
}

/// The key under which rules turned away for good are counted.
pub open spec fn excluded_key() -> Seq<char> {
    "excluded"@
}

/// The key under which rules listed as noisy are counted.
pub open spec fn noisy_key() -> Seq<char> {
    "noisy"@
}

/// The counts of turned-away rules before any rule was seen.
pub open spec fn fresh_load_counts() -> Map<Seq<char>, u128> {
    Map::<Seq<char>, u128>::empty().insert(excluded_key(), 0u128).insert(noisy_key(), 0u128)
}

/// The counts by status before any rule was seen.
pub open spec fn fresh_status_counts() -> Map<Seq<char>, u128> {
    Map::<Seq<char>, u128>::empty().insert(crate::config::deprecated_label(), 0u128).insert(
        crate::config::unsupported_label(),
        0u128,
    )
}

/// The status labels that the settings bar outright.
pub open spec fn barred_statuses(stored_static: StoredStatic) -> Set<Seq<char>> {
    match stored_static.output_option {
        Some(o) => crate::tables::label_set_of(o.exclude_status),
        None => Set::empty(),
    }
}

impl ParseYaml {
    /// A loader that has seen nothing: no rules, no failed files, the counts of
    /// turned-away rules and of the two gated statuses at zero, the barred statuses
    /// taken from the settings, and the standard severity ranks.
    pub fn new(stored_static: &StoredStatic) -> (loader: ParseYaml)
        ensures
            loader@.files == Seq::<(Seq<char>, Yaml)>::empty(),
            loader@.rulecounter == Map::<Seq<char>, u128>::empty(),
            loader@.rule_load_cnt == fresh_load_counts(),
            loader@.rule_status_cnt == fresh_status_counts(),
            loader@.errorrule_count == 0,
            loader.exclude_status@ == barred_statuses(*stored_static),
            loader.level_map@ == standard_ranks(),
    {
        let exclude_status = match &stored_static.output_option {
            Some(o) => LabelSet::from_labels(&o.exclude_status),
            None => LabelSet::from_labels(&None),
        };
        let rulecounter = LabelMap::empty();
        let mut rule_load_cnt = LabelMap::empty();
        let mut rule_status_cnt = LabelMap::empty();
        assert(rulecounter@ =~= Map::<Seq<char>, u128>::empty());
        assert(rule_load_cnt@ =~= Map::<Seq<char>, u128>::empty());
        assert(rule_status_cnt@ =~= Map::<Seq<char>, u128>::empty());
        rule_load_cnt.store("excluded", 0);
        rule_load_cnt.store("noisy", 0);
        rule_status_cnt.store("deprecated", 0);
        rule_status_cnt.store("unsupported", 0);
        let loader = ParseYaml {
            files: Vec::new(),
            rulecounter,
            rule_load_cnt,
            rule_status_cnt,
            errorrule_count: 0,
            exclude_status,
            level_map: standard_level_map(),
        };
        assert(loader@.files =~= Seq::<(Seq<char>, Yaml)>::empty());
        loader
    }

    /// Whether each of the three tables of counts can take `n` more rules.
    pub fn fits(&self, n: usize) -> (ok: bool)
        ensures
            ok == self@.has_room(n as nat),
    {
        self.rulecounter.has_room(n as u128) && self.rule_load_cnt.has_room(n as u128)
            && self.rule_status_cnt.has_room(n as u128)
    }
}

} // verus!
