//! Hash tables keyed by text, with their contents as mathematical maps and sets.

use compact_str::CompactString;
use hashbrown::{HashMap, HashSet};
use vstd::prelude::*;

verus! {

/// A table from labels to numbers: counters and the ranks of severity labels. It is a
/// `hashbrown::HashMap` keyed by `CompactString`; what it holds is known to the
/// verifier only as `label_map_entries` and through the contracts of the methods below.
#[verifier::external_body]
pub struct LabelMap {
    table: HashMap<CompactString, u128>,
}

/// A set of labels. It is a `hashbrown::HashSet`; what it holds is known to the verifier
/// only as `label_set_members` and through the contracts of the methods below.
#[verifier::external_body]
pub struct LabelSet {
    members: HashSet<String>,
}

/// A table from rule identifiers to the reason each was listed for. It is a
/// `hashbrown::HashMap`; what it holds is known to the verifier only as
/// `reason_map_entries` and through the contracts of the methods below.
#[verifier::external_body]
pub struct ReasonMap {
    table: HashMap<String, String>,
}

/// What a `LabelMap` holds: each key with its number.
pub uninterp spec fn label_map_entries(m: LabelMap) -> Map<Seq<char>, u128>;

/// What a `LabelSet` holds.
pub uninterp spec fn label_set_members(s: LabelSet) -> Set<Seq<char>>;

/// What a `ReasonMap` holds: each identifier with its reason.
pub uninterp spec fn reason_map_entries(m: ReasonMap) -> Map<Seq<char>, Seq<char>>;

impl View for LabelMap {
    type V = Map<Seq<char>, u128>;

    open spec fn view(&self) -> Map<Seq<char>, u128> {
        label_map_entries(*self)
    }
}

impl View for LabelSet {
    type V = Set<Seq<char>>;

    open spec fn view(&self) -> Set<Seq<char>> {
        label_set_members(*self)
    }
}

impl View for ReasonMap {
    type V = Map<Seq<char>, Seq<char>>;

    open spec fn view(&self) -> Map<Seq<char>, Seq<char>> {
        reason_map_entries(*self)
    }
}

/// The number stored under `key`, or `fallback` where the key is absent.
pub open spec fn number_or(m: Map<Seq<char>, u128>, key: Seq<char>, fallback: u128) -> u128 {
    if m.contains_key(key) {
        m[key]
    } else {
        fallback
    }
}

/// Every number in `m` can grow by `n` without leaving `u128`.
pub open spec fn has_headroom(m: Map<Seq<char>, u128>, n: nat) -> bool {
    &&& n <= u128::MAX
    &&& forall|k: Seq<char>| m.contains_key(k) ==> #[trigger] m[k] + n <= u128::MAX
}

/// `all` lists the numbers of `m`: a number is in `all` exactly if some key maps to it.
pub open spec fn lists_numbers_of(all: Seq<u128>, m: Map<Seq<char>, u128>) -> bool {
    forall|n: u128| all.contains(n) <==> exists|k: Seq<char>| m.contains_key(k) && #[trigger] m[k] == n
}

/// `m` with the number under `key` raised by one; an absent key counts as zero.
pub open spec fn bumped(m: Map<Seq<char>, u128>, key: Seq<char>) -> Map<Seq<char>, u128> {
    m.insert(key, (number_or(m, key, 0) + 1) as u128)
}

/// Numbers that could grow by `n + 1` can still grow by `n` after one of them was
/// raised by one.
pub proof fn lemma_bump_keeps_headroom(m: Map<Seq<char>, u128>, key: Seq<char>, n: nat)
    requires
        has_headroom(m, n + 1),
    ensures
        has_headroom(bumped(m, key), n),
        has_headroom(m, n),
{
    assert forall|k: Seq<char>| bumped(m, key).contains_key(k) implies #[trigger] bumped(m, key)[k]
        + n <= u128::MAX by {
        if k != key {
            assert(m.contains_key(k));
            assert(m[k] + (n + 1) <= u128::MAX);
        } else if m.contains_key(key) {
            assert(m[key] + (n + 1) <= u128::MAX);
        }
    }
    assert forall|k: Seq<char>| m.contains_key(k) implies #[trigger] m[k] + n <= u128::MAX by {
        assert(m[k] + (n + 1) <= u128::MAX);
    }
}

impl LabelMap {
    /// `hashbrown::HashMap::new`: a table without entries.
    #[verifier::external_body]
    pub(crate) fn empty() -> (m: LabelMap)
        ensures
            label_map_entries(m).dom().is_empty(),
    {
        LabelMap { table: HashMap::new() }
    }

    /// `hashbrown::HashMap::get`: the number stored under `key`, if the key is present.
    #[verifier::external_body]
    pub(crate) fn lookup(&self, key: &str) -> (found: Option<u128>)
        ensures
            found is Some <==> label_map_entries(*self).contains_key(key@),
            found matches Some(n) ==> n == label_map_entries(*self)[key@],
    {
        self.table.get(key).copied()
    }

    /// `hashbrown::HashMap::insert`: afterwards `key` maps to `value` and every other
    /// key is as before.
    #[verifier::external_body]
    pub(crate) fn store(&mut self, key: &str, value: u128)
        ensures
            label_map_entries(*final(self)) == label_map_entries(*old(self)).insert(key@, value),
    {
        self.table.insert(CompactString::from(key), value);
    }

    /// `hashbrown::HashMap::values`: the stored numbers, in no stated order. A number is
    /// in the result exactly if some key maps to it.
    #[verifier::external_body]
    pub(crate) fn numbers(&self) -> (all: Vec<u128>)
        ensures
            lists_numbers_of(all@, label_map_entries(*self)),
    {
        self.table.values().copied().collect()
    }

    /// The number stored under `key`, if any.
    pub fn get(&self, key: &str) -> (found: Option<u128>)
        ensures
            found is Some <==> self@.contains_key(key@),
            found matches Some(n) ==> n == self@[key@],
    {
        self.lookup(key)
    }

    /// The number stored under `key`, or `fallback` where the key is absent.
    pub fn get_or(&self, key: &str, fallback: u128) -> (n: u128)
        ensures
            n == number_or(self@, key@, fallback),
    {
        match self.lookup(key) {
            Some(n) => n,
            None => fallback,
        }
    }

    /// Raises the number under `key` by one, starting from zero where the key is absent.
    pub fn bump(&mut self, key: &str)
        requires
            number_or(old(self)@, key@, 0) < u128::MAX,
        ensures
            final(self)@ == bumped(old(self)@, key@),
    {
        let current: u128 = self.get_or(key, 0);
        self.store(key, current + 1);
    }

    /// Whether every stored number can grow by `n` without leaving `u128`.
    pub fn has_room(&self, n: u128) -> (ok: bool)
        ensures
            ok == has_headroom(self@, n as nat),
    {
        let all = self.numbers();
        let limit: u128 = u128::MAX - n;
        let mut i: usize = 0;
        while i < all.len()
            invariant
                i <= all.len(),
                limit == u128::MAX - n,
                lists_numbers_of(all@, self@),
                forall|j: int| 0 <= j < i ==> all@[j] <= limit,
            decreases all.len() - i,
        {
            if all[i] > limit {
                proof {
                    let big: u128 = all@[i as int];
                    assert(all@.contains(big));
                    let k = choose|k: Seq<char>| self@.contains_key(k) && #[trigger] self@[k] == big;
                    assert(self@[k] + n > u128::MAX);
                }
                return false;
            }
            i += 1;
        }
        proof {
            assert forall|k: Seq<char>| self@.contains_key(k) implies #[trigger] self@[k] + n
                <= u128::MAX by {
                let v: u128 = self@[k];
                assert(all@.contains(v));
                let j = choose|j: int| 0 <= j < all@.len() && all@[j] == v;
                assert(all@[j] <= limit);
            }
        }
        true
    }
}

impl LabelSet {
    /// `hashbrown::HashSet::new`: a set without members.
    #[verifier::external_body]
    pub(crate) fn empty() -> (s: LabelSet)
        ensures
            label_set_members(s).is_empty(),
    {
        LabelSet { members: HashSet::new() }
    }

    /// `hashbrown::HashSet::insert`: afterwards `label` is a member and every other
    /// label is as before.
    #[verifier::external_body]
    pub(crate) fn add(&mut self, label: &str)
        ensures
            label_set_members(*final(self)) == label_set_members(*old(self)).insert(label@),
    {
        self.members.insert(String::from(label));
    }

    /// `hashbrown::HashSet::contains`: whether `label` is a member.
    #[verifier::external_body]
    pub(crate) fn holds(&self, label: &str) -> (present: bool)
        ensures
            present == label_set_members(*self).contains(label@),
    {
        self.members.contains(label)
    }

    /// The set of the labels in `labels`; the empty set where there is no list.
    pub fn from_labels(labels: &Option<Vec<String>>) -> (s: LabelSet)
        ensures
            s@ == label_set_of(*labels),
    {
        let mut s = LabelSet::empty();
        match labels {
            Some(list) => {
                let mut i: usize = 0;
                while i < list.len()
                    invariant
                        i <= list.len(),
                        s@ == Set::new(|l: Seq<char>| exists|j: int| 0 <= j < i && #[trigger] list@[j]@ == l),
                    decreases list.len() - i,
                {
                    s.add(list[i].as_str());
                    i += 1;
                    assert(s@ =~= Set::new(|l: Seq<char>| exists|j: int| 0 <= j < i && #[trigger] list@[j]@ == l));
                }
            },
            None => {
                assert(s@ =~= label_set_of(*labels));
            },
        }
        s
    }

    /// Whether `label` is a member.
    pub fn contains(&self, label: &str) -> (present: bool)
        ensures
            present == self@.contains(label@),
    {
        self.holds(label)
    }
}

/// The labels of an optional list, as a set.
pub open spec fn label_set_of(labels: Option<Vec<String>>) -> Set<Seq<char>> {
    match labels {
        Some(list) => Set::new(|l: Seq<char>| exists|j: int| 0 <= j < list@.len() && #[trigger] list@[j]@ == l),
        None => Set::empty(),
    }
}

impl ReasonMap {
    /// `hashbrown::HashMap::new`: a table without entries.
    #[verifier::external_body]
    pub(crate) fn empty() -> (m: ReasonMap)
        ensures
            reason_map_entries(m).dom().is_empty(),
    {
        ReasonMap { table: HashMap::new() }
    }

    /// `hashbrown::HashMap::insert`: afterwards `id` maps to `reason` and every other
    /// identifier is as before.
    #[verifier::external_body]
    pub(crate) fn store(&mut self, id: &str, reason: &str)
        ensures
            reason_map_entries(*final(self)) == reason_map_entries(*old(self)).insert(id@, reason@),
    {
        self.table.insert(String::from(id), String::from(reason));
    }

    /// `hashbrown::HashMap::get`: the reason stored under `id`, if the identifier is present.
    #[verifier::external_body]
    pub(crate) fn lookup(&self, id: &str) -> (found: Option<&String>)
        ensures
            found is Some <==> reason_map_entries(*self).contains_key(id@),
            found matches Some(reason) ==> reason@ == reason_map_entries(*self)[id@],
    {
        self.table.get(id)
    }
}

} // verus!
