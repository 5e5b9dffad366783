//! The configuration a caller hands to the loader.

use crate::tables::ReasonMap;
use vstd::prelude::*;

verus! {

/// Options that govern which rules are put to use.
#[derive(Debug)]
pub struct OutputOption {
    /// Status labels whose rules are always rejected.
    pub exclude_status: Option<Vec<String>>,
    /// Admit rules that are listed as noisy.
    pub enable_noisy_rules: bool,
    /// Admit rules whose status is `deprecated`.
    pub enable_deprecated_rules: bool,
    /// Admit rules whose status is `unsupported`.
    pub enable_unsupported_rules: bool,
}

/// The settings of one run.
#[derive(Debug)]
pub struct StoredStatic {
    /// The output options; absent where the run produces no output.
    pub output_option: Option<OutputOption>,
    /// Report failures on the console.
    pub verbose_flag: bool,
    /// Keep failures out of the error log.
    pub quiet_errors_flag: bool,
}

/// The status label of rules that are no longer maintained.
pub open spec fn deprecated_label() -> Seq<char> {
    "deprecated"@
}

/// The status label of rules that the engine cannot evaluate.
pub open spec fn unsupported_label() -> Seq<char> {
    "unsupported"@
}

impl StoredStatic {
    /// Noisy rules are enabled: there are output options and they say so.
    pub open spec fn noisy_enabled(&self) -> bool {
        match self.output_option {
            Some(o) => o.enable_noisy_rules,
            None => false,
        }
    }

    /// A rule of this status is held back by the status flags. Without output options
    /// no status is held back.
    pub open spec fn holds_back(&self, status: Seq<char>) -> bool {
        match self.output_option {
            Some(o) => (status == deprecated_label() && !o.enable_deprecated_rules) || (status
                == unsupported_label() && !o.enable_unsupported_rules),
            None => false,
        }
    }

    /// Whether noisy rules are enabled.
    pub fn enables_noisy(&self) -> (on: bool)
        ensures
            on == self.noisy_enabled(),
    {
        match &self.output_option {
            Some(o) => o.enable_noisy_rules,
            None => false,
        }
    }

    /// Whether the status flags hold back a rule of status `status`.
    pub fn gates_status(&self, status: &str) -> (held: bool)
        ensures
            held == self.holds_back(status@),
    {
        match &self.output_option {
            Some(o) => {
                (crate::text::same_text(status, "deprecated") && !o.enable_deprecated_rules)
                    || (crate::text::same_text(status, "unsupported")
                    && !o.enable_unsupported_rules)
            },
            None => false,
        }
    }
}

/// The rules a caller has listed for exclusion: each identifier with the reason it was
/// listed for.
pub struct RuleExclude {
    pub no_use_rule: ReasonMap,
}

impl RuleExclude {
    /// A list without entries.
    pub fn new() -> (list: RuleExclude)
        ensures
            list.no_use_rule@ == Map::<Seq<char>, Seq<char>>::empty(),
    {
        let table = ReasonMap::empty();
        assert(table@ =~= Map::<Seq<char>, Seq<char>>::empty());
        RuleExclude { no_use_rule: table }
    }

    /// Lists the rule `id` with `reason`, in place of any earlier reason.
    pub fn insert(&mut self, id: &str, reason: &str)
        ensures
            final(self).no_use_rule@ == old(self).no_use_rule@.insert(id@, reason@),
    {
        self.no_use_rule.store(id, reason);
    }
}

} // verus!
