//! The admission filter: which rules are put to use, and what is counted on the way.
//!
//! A rule passes four stages in a fixed order: the list of excluded rules, the barred
//! statuses, the status flags, and the severity band. The first stage that turns the
//! rule away ends its evaluation.

use crate::config::{deprecated_label, unsupported_label, RuleExclude, StoredStatic};
use crate::document::{fields_of, pairs_view, FieldsView, RuleFields};
use crate::level::{document_rank, exact_rank, floor_rank, in_band, passes_band, rank_of_level};
use crate::tables::{bumped, lemma_bump_keeps_headroom, number_or};
use crate::text::{contains_seq, contains_str, same_text};
use crate::yaml::{excluded_key, noisy_key, Loaded, ParseYaml};
use vstd::prelude::*;
use yaml_rust::Yaml;

verus! {

/// How the evaluation of a rule ended.
#[derive(Clone, Copy, Debug, PartialEq, Eq, Structural)]
pub enum Verdict {
    /// Listed for exclusion.
    Excluded,
    /// Listed as noisy while noisy rules are not enabled.
    Noisy,
    /// Of a barred status.
    StatusExcluded,
    /// Held back by a status flag.
    StatusGated,
    /// Outside the severity band.
    OutOfBand,
    /// Put to use.
    Admitted,
}

/// How the list of excluded rules classes a rule.
pub enum Listing {
    /// Not on the list.
    Unlisted,
    /// On the list, for exclusion.
    Excluded,
    /// On the list, as noisy.
    Noisy,
}

/// The text in a reason that marks a rule as listed for exclusion.
pub open spec fn exclude_marker() -> Seq<char> {
    "exclude_rule"@
}

/// The identifier of the rule that serves as a test fixture.
pub open spec fn reserved_id() -> Seq<char> {
    "00000000-0000-0000-0000-000000000000"@
}

/// The rule type of a rule that names none.
pub open spec fn other_type() -> Seq<char> {
    "Other"@
}

/// The status of a rule that names none.
pub open spec fn undefined_status() -> Seq<char> {
    "undefined"@
}

/// How the list `listed` classes a rule with identifier `id`.
pub open spec fn listing_of(id: Option<Seq<char>>, listed: Map<Seq<char>, Seq<char>>) -> Listing {
    match id {
        Some(i) => if !listed.contains_key(i) {
            Listing::Unlisted
        } else if contains_seq(listed[i], exclude_marker()) {
            Listing::Excluded
        } else {
            Listing::Noisy
        },
        None => Listing::Unlisted,
    }
}

/// What decides admission, as mathematical values.
pub struct Policy {
    /// The list of excluded rules: identifier and reason.
    pub listed: Map<Seq<char>, Seq<char>>,
    /// The barred statuses.
    pub barred: Set<Seq<char>>,
    /// Noisy rules are enabled.
    pub noisy: bool,
    /// Deprecated rules are held back: there are output options and they do not enable them.
    pub gate_deprecated: bool,
    /// Unsupported rules are held back: there are output options and they do not enable them.
    pub gate_unsupported: bool,
    /// The ranks of the severity labels.
    pub ranks: Map<Seq<char>, u128>,
    /// The lowest rank that is admitted.
    pub floor: u128,
    /// The only rank that is admitted; 0 where every rank is.
    pub exact: u128,
}

impl Policy {
    /// The list of excluded rules lets the rule through: it is not listed, or it is
    /// listed as noisy and noisy rules are enabled.
    pub open spec fn survives_listing(self, f: FieldsView) -> bool {
        match listing_of(f.id, self.listed) {
            Listing::Unlisted => true,
            Listing::Excluded => false,
            Listing::Noisy => self.noisy,
        }
    }

    /// The listing of the rule is counted: it is listed and does not bear the reserved
    /// identifier.
    pub open spec fn counts_listing(self, f: FieldsView) -> bool {
        !(listing_of(f.id, self.listed) is Unlisted) && f.id != Some(reserved_id())
    }

    /// The rule names a barred status.
    pub open spec fn bars(self, f: FieldsView) -> bool {
        f.status matches Some(s) && self.barred.contains(s)
    }

    /// The rule names a status that a status flag holds back.
    pub open spec fn holds_back(self, f: FieldsView) -> bool {
        f.status matches Some(s) && ((s == deprecated_label() && self.gate_deprecated) || (s
            == unsupported_label() && self.gate_unsupported))
    }

    /// The rank of the rule lies in the severity band.
    pub open spec fn in_band(self, f: FieldsView) -> bool {
        in_band(document_rank(self.ranks, f.level), self.floor, self.exact)
    }

    /// How the evaluation of a rule with fields `f` ends.
    pub open spec fn verdict(self, f: FieldsView) -> Verdict {
        if !self.survives_listing(f) {
            if listing_of(f.id, self.listed) is Excluded {
                Verdict::Excluded
            } else {
                Verdict::Noisy
            }
        } else if self.bars(f) {
            Verdict::StatusExcluded
        } else if self.holds_back(f) {
            Verdict::StatusGated
        } else if !self.in_band(f) {
            Verdict::OutOfBand
        } else {
            Verdict::Admitted
        }
    }

    /// The rule is put to use.
    pub open spec fn admits(self, f: FieldsView) -> bool {
        self.verdict(f) is Admitted
    }

    /// The counts of turned-away rules after a rule with fields `f`: a counted listing
    /// raises `excluded` or `noisy`, whether or not the rule goes on; a barred status
    /// raises `excluded`.
    pub open spec fn load_counts(self, f: FieldsView, before: Map<Seq<char>, u128>) -> Map<
        Seq<char>,
        u128,
    > {
        let listed = if !self.counts_listing(f) {
            before
        } else if listing_of(f.id, self.listed) is Excluded {
            bumped(before, excluded_key())
        } else {
            bumped(before, noisy_key())
        };
        if self.survives_listing(f) && self.bars(f) {
            bumped(listed, excluded_key())
        } else {
            listed
        }
    }

    /// The counts by status after a rule with fields `f`: every rule that reaches the
    /// status flags is counted once under its status, held back or not.
    pub open spec fn status_counts(self, f: FieldsView, before: Map<Seq<char>, u128>) -> Map<
        Seq<char>,
        u128,
    > {
        if self.survives_listing(f) && !self.bars(f) {
            bumped(
                before,
                match f.status {
                    Some(s) => s,
                    None => undefined_status(),
                },
            )
        } else {
            before
        }
    }

    /// The counts by rule type after a rule with fields `f`: every rule that comes
    /// through the status flags is counted once under its rule type.
    pub open spec fn type_counts(self, f: FieldsView, before: Map<Seq<char>, u128>) -> Map<
        Seq<char>,
        u128,
    > {
        if self.survives_listing(f) && !self.bars(f) && !self.holds_back(f) {
            bumped(
                before,
                match f.ruletype {
                    Some(t) => t,
                    None => other_type(),
                },
            )
        } else {
            before
        }
    }

    /// What the loader has gathered after the rule `doc` of the file at `path`.
    pub open spec fn after_document(self, s: Loaded, path: Seq<char>, doc: Yaml) -> Loaded {
        let f = fields_of(doc);
        Loaded {
            files: if self.admits(f) {
                s.files.push((path, doc))
            } else {
                s.files
            },
            rulecounter: self.type_counts(f, s.rulecounter),
            rule_load_cnt: self.load_counts(f, s.rule_load_cnt),
            rule_status_cnt: self.status_counts(f, s.rule_status_cnt),
            errorrule_count: s.errorrule_count,
        }
    }

    /// What the loader has gathered after the rules `docs`, taken in order.
    pub open spec fn after_batch(self, s: Loaded, docs: Seq<(Seq<char>, Yaml)>) -> Loaded
        decreases docs.len(),
    {
        if docs.len() == 0 {
            s
        } else {
            self.after_document(self.after_batch(s, docs.drop_last()), docs.last().0, docs.last().1)
        }
    }
}

/// The labels under which rules are counted differ from one another.
pub proof fn lemma_keys_differ()
    ensures
        excluded_key() != noisy_key(),
{
    reveal_strlit("excluded");
    reveal_strlit("noisy");
    assert(excluded_key().len() == 8);
    assert(noisy_key().len() == 5);
}

impl ParseYaml {
    /// What decides admission under the given settings.
    pub open spec fn policy(
        &self,
        min_level: Seq<char>,
        target_level: Seq<char>,
        exclude_ids: RuleExclude,
        stored_static: StoredStatic,
    ) -> Policy {
        Policy {
            listed: exclude_ids.no_use_rule@,
            barred: self.exclude_status@,
            noisy: stored_static.noisy_enabled(),
            gate_deprecated: stored_static.output_option matches Some(o)
                && !o.enable_deprecated_rules,
            gate_unsupported: stored_static.output_option matches Some(o)
                && !o.enable_unsupported_rules,
            ranks: self.level_map@,
            floor: floor_rank(self.level_map@, min_level),
            exact: exact_rank(self.level_map@, target_level),
        }
    }

    /// Evaluates one rule: says how its evaluation ends and counts what the stages it
    /// reached call for. The list of admitted rules is left alone.
    pub fn evaluate(
        &mut self,
        fields: &RuleFields,
        min_level: &str,
        target_level: &str,
        exclude_ids: &RuleExclude,
        stored_static: &StoredStatic,
    ) -> (verdict: Verdict)
        requires
            old(self)@.has_room(1),
        ensures
            verdict == old(self).policy(min_level@, target_level@, *exclude_ids, *stored_static).verdict(
                fields@,
            ),
            final(self).rule_load_cnt@ == old(self).policy(
                min_level@,
                target_level@,
                *exclude_ids,
                *stored_static,
            ).load_counts(fields@, old(self).rule_load_cnt@),
            final(self).rule_status_cnt@ == old(self).policy(
                min_level@,
                target_level@,
                *exclude_ids,
                *stored_static,
            ).status_counts(fields@, old(self).rule_status_cnt@),
            final(self).rulecounter@ == old(self).policy(
                min_level@,
                target_level@,
                *exclude_ids,
                *stored_static,
            ).type_counts(fields@, old(self).rulecounter@),
            final(self).files == old(self).files,
            final(self).errorrule_count == old(self).errorrule_count,
            final(self).exclude_status == old(self).exclude_status,
            final(self).level_map == old(self).level_map,
    {
        proof {
            lemma_keys_differ();
        }
        match &fields.id {
            Some(id) => {
                match exclude_ids.no_use_rule.lookup(id.as_str()) {
                    Some(reason) => {
                        let excluded = contains_str(reason.as_str(), "exclude_rule");
                        if !same_text(id.as_str(), "00000000-0000-0000-0000-000000000000") {
                            if excluded {
                                self.rule_load_cnt.bump("excluded");
                            } else {
                                self.rule_load_cnt.bump("noisy");
                            }
                        }
                        if excluded {
                            return Verdict::Excluded;
                        }
                        if !stored_static.enables_noisy() {
                            return Verdict::Noisy;
                        }
                    },
                    None => {},
                }
            },
            None => {},
        }
        match &fields.status {
            Some(status) => {
                if self.exclude_status.contains(status.as_str()) {
                    self.rule_load_cnt.bump("excluded");
                    return Verdict::StatusExcluded;
                }
                if stored_static.gates_status(status.as_str()) {
                    self.rule_status_cnt.bump(status.as_str());
                    return Verdict::StatusGated;
                }
                self.rule_status_cnt.bump(status.as_str());
            },
            None => {
                self.rule_status_cnt.bump("undefined");
            },
        }
        match &fields.ruletype {
            Some(ruletype) => self.rulecounter.bump(ruletype.as_str()),
            None => self.rulecounter.bump("Other"),
        }
        let rank = match &fields.level {
            Some(level) => rank_of_level(&self.level_map, Some(level.as_str())),
            None => rank_of_level(&self.level_map, None),
        };
        let floor = self.level_map.get_or(min_level, 1);
        let exact = self.level_map.get_or(target_level, 0);
        if passes_band(rank, floor, exact) {
            Verdict::Admitted
        } else {
            Verdict::OutOfBand
        }
    }

    /// Evaluates the rules of `docs` in order and appends the admitted ones to the list
    /// of admitted rules.
    pub fn admit_batch(
        &mut self,
        docs: Vec<(String, Yaml)>,
        min_level: &str,
        target_level: &str,
        exclude_ids: &RuleExclude,
        stored_static: &StoredStatic,
    )
        requires
            old(self)@.has_room(docs@.len()),
        ensures
            final(self)@ == old(self).policy(
                min_level@,
                target_level@,
                *exclude_ids,
                *stored_static,
            ).after_batch(old(self)@, pairs_view(docs@)),
            final(self).exclude_status == old(self).exclude_status,
            final(self).level_map == old(self).level_map,
    {
        let ghost before = self@;
        let ghost policy = self.policy(min_level@, target_level@, *exclude_ids, *stored_static);
        let ghost barred = self.exclude_status;
        let ghost ranks = self.level_map;
        assert(pairs_view(docs@.take(0)) =~= Seq::<(Seq<char>, Yaml)>::empty());
        for pair in it: docs
            invariant
                it.seq() == docs@,
                self.exclude_status == barred,
                self.level_map == ranks,
                policy == self.policy(min_level@, target_level@, *exclude_ids, *stored_static),
                self@ == policy.after_batch(before, pairs_view(docs@.take(it.index()))),
                self@.has_room((docs@.len() - it.index()) as nat),
        {
            let ghost i = it.index();
            let ghost earlier = self@;
            let (path, doc) = pair;
            let fields = RuleFields::extract(&doc);
            let verdict = self.evaluate(&fields, min_level, target_level, exclude_ids, stored_static);
            proof {
                let left = (docs@.len() - i - 1) as nat;
                lemma_room_after_document(policy, earlier, path@, doc, left);
                let now = pairs_view(docs@.take(i + 1));
                assert(now.drop_last() =~= pairs_view(docs@.take(i)));
                assert(now.last() == (path@, doc));
            }
            match verdict {
                Verdict::Admitted => {
                    let ghost held = self.files@;
                    self.files.push((path, doc));
                    assert(pairs_view(self.files@) =~= pairs_view(held).push((path@, doc)));
                },
                _ => {},
            }
        }
        assert(docs@.take(docs@.len() as int) =~= docs@);
    }
}

/// A rule that is listed with a reason that holds the exclusion marker is never
/// admitted. Its listing raises the count of excluded rules by one and leaves every
/// other count as it was; where the rule bears the reserved identifier, nothing at all
/// is counted.
pub proof fn lemma_listed_for_exclusion(policy: Policy, s: Loaded, path: Seq<char>, doc: Yaml)
    requires
        fields_of(doc).id is Some,
        policy.listed.contains_key(fields_of(doc).id->0),
        contains_seq(policy.listed[fields_of(doc).id->0], exclude_marker()),
        number_or(s.rule_load_cnt, excluded_key(), 0) < u128::MAX,
    ensures
        !policy.admits(fields_of(doc)),
        policy.verdict(fields_of(doc)) == Verdict::Excluded,
        policy.after_document(s, path, doc).files == s.files,
        policy.after_document(s, path, doc).rulecounter == s.rulecounter,
        policy.after_document(s, path, doc).rule_status_cnt == s.rule_status_cnt,
        fields_of(doc).id->0 != reserved_id() ==> policy.after_document(s, path, doc).rule_load_cnt
            == s.rule_load_cnt.insert(
            excluded_key(),
            (number_or(s.rule_load_cnt, excluded_key(), 0) + 1) as u128,
        ),
        fields_of(doc).id->0 != reserved_id() ==> number_or(
            policy.after_document(s, path, doc).rule_load_cnt,
            excluded_key(),
            0,
        ) == number_or(s.rule_load_cnt, excluded_key(), 0) + 1,
        fields_of(doc).id->0 == reserved_id() ==> policy.after_document(s, path, doc) == s,
{
}

/// A rule that is listed with a reason that lacks the exclusion marker is admitted only
/// where noisy rules are enabled, and then exactly if the later checks let it through.
/// Its listing raises the count of noisy rules by one, admitted or not, unless the rule
/// bears the reserved identifier.
pub proof fn lemma_listed_as_noisy(policy: Policy, s: Loaded, path: Seq<char>, doc: Yaml)
    requires
        fields_of(doc).id is Some,
        policy.listed.contains_key(fields_of(doc).id->0),
        !contains_seq(policy.listed[fields_of(doc).id->0], exclude_marker()),
        number_or(s.rule_load_cnt, noisy_key(), 0) < u128::MAX,
    ensures
        !policy.noisy ==> policy.verdict(fields_of(doc)) == Verdict::Noisy,
        policy.admits(fields_of(doc)) <==> policy.noisy && !policy.bars(fields_of(doc))
            && !policy.holds_back(fields_of(doc)) && policy.in_band(fields_of(doc)),
        !policy.bars(fields_of(doc)) && !policy.holds_back(fields_of(doc)) && policy.in_band(
            fields_of(doc),
        ) ==> (policy.admits(fields_of(doc)) <==> policy.noisy),
        number_or(policy.after_document(s, path, doc).rule_load_cnt, noisy_key(), 0) == number_or(
            s.rule_load_cnt,
            noisy_key(),
            0,
        ) + if fields_of(doc).id->0 != reserved_id() {
            1int
        } else {
            0int
        },
{
    lemma_keys_differ();
}

/// A rule of status `deprecated` that the list of excluded rules and the barred
/// statuses let through: where deprecated rules are held back it is rejected, and the
/// count of its status rises by one while no rule type is counted; where they are not
/// held back it is admitted exactly if it lies in the severity band, and the count of
/// its status rises by one as well.
pub proof fn lemma_deprecated_rule(policy: Policy, s: Loaded, path: Seq<char>, doc: Yaml)
    requires
        fields_of(doc).status == Some(deprecated_label()),
        policy.survives_listing(fields_of(doc)),
        !policy.bars(fields_of(doc)),
        number_or(s.rule_status_cnt, deprecated_label(), 0) < u128::MAX,
    ensures
        policy.gate_deprecated ==> policy.verdict(fields_of(doc)) == Verdict::StatusGated,
        policy.gate_deprecated ==> policy.after_document(s, path, doc).files == s.files,
        policy.gate_deprecated ==> policy.after_document(s, path, doc).rulecounter == s.rulecounter,
        !policy.gate_deprecated ==> (policy.admits(fields_of(doc)) <==> policy.in_band(
            fields_of(doc),
        )),
        number_or(policy.after_document(s, path, doc).rule_status_cnt, deprecated_label(), 0)
            == number_or(s.rule_status_cnt, deprecated_label(), 0) + 1,
{
    lemma_statuses_differ();
}

/// The two statuses that a flag can hold back differ from one another.
pub proof fn lemma_statuses_differ()
    ensures
        deprecated_label() != unsupported_label(),
{
    reveal_strlit("deprecated");
    reveal_strlit("unsupported");
    assert(deprecated_label().len() == 10);
    assert(unsupported_label().len() == 11);
}

/// The rules of a batch that are admitted.
pub open spec fn admitted_of(policy: Policy, docs: Seq<(Seq<char>, Yaml)>) -> Seq<(Seq<char>, Yaml)> {
    docs.filter(|d: (Seq<char>, Yaml)| policy.admits(fields_of(d.1)))
}

/// A batch leaves the rules admitted before it in place and appends its own admitted
/// rules in their order, nothing else and none twice over; the count of failed files
/// stays as it was.
pub proof fn lemma_batch_appends_admitted(policy: Policy, s: Loaded, docs: Seq<(Seq<char>, Yaml)>)
    ensures
        policy.after_batch(s, docs).files == s.files + admitted_of(policy, docs),
        policy.after_batch(s, docs).errorrule_count == s.errorrule_count,
    decreases docs.len(),
{
    let keep = |d: (Seq<char>, Yaml)| policy.admits(fields_of(d.1));
    if docs.len() == 0 {
        assert(docs.filter(keep) =~= Seq::<(Seq<char>, Yaml)>::empty()) by {
            reveal(Seq::filter);
        }
        assert(s.files + admitted_of(policy, docs) =~= s.files);
    } else {
        lemma_batch_appends_admitted(policy, s, docs.drop_last());
        assert(docs.filter(keep) == if keep(docs.last()) {
            docs.drop_last().filter(keep).push(docs.last())
        } else {
            docs.drop_last().filter(keep)
        }) by {
            reveal(Seq::filter);
        }
        assert(policy.after_batch(s, docs).files =~= s.files + admitted_of(policy, docs));
    }
}

/// A loader with room for `n + 1` rules has room for `n` after one rule.
pub proof fn lemma_room_after_document(
    policy: Policy,
    s: Loaded,
    path: Seq<char>,
    doc: Yaml,
    n: nat,
)
    requires
        s.has_room(n + 1),
    ensures
        policy.after_document(s, path, doc).has_room(n),
{
    let f = fields_of(doc);
    lemma_keys_differ();
    lemma_bump_keeps_headroom(s.rulecounter, other_type(), n);
    if f.ruletype is Some {
        lemma_bump_keeps_headroom(s.rulecounter, f.ruletype->0, n);
    }
    lemma_bump_keeps_headroom(s.rule_status_cnt, undefined_status(), n);
    if f.status is Some {
        lemma_bump_keeps_headroom(s.rule_status_cnt, f.status->0, n);
    }
    lemma_bump_keeps_headroom(s.rule_load_cnt, excluded_key(), n);
    lemma_bump_keeps_headroom(s.rule_load_cnt, noisy_key(), n);
    let after = policy.load_counts(f, s.rule_load_cnt);
    assert forall|k: Seq<char>| after.contains_key(k) implies #[trigger] after[k] + n
        <= u128::MAX by {
        if s.rule_load_cnt.contains_key(k) {
            assert(s.rule_load_cnt[k] + (n + 1) <= u128::MAX);
        }
    }
}

} // verus!
