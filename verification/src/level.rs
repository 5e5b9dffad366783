//! Severity labels and their ranks.

use crate::tables::{number_or, LabelMap};
use vstd::prelude::*;

verus! {

/// The upper-case form of `label`, as `str::to_uppercase` computes it.
pub uninterp spec fn uppercase(label: Seq<char>) -> Seq<char>;

/// `str::to_uppercase`: the upper-case form of `label`. The result depends on the
/// characters of `label` alone.
#[verifier::external_body]
fn to_uppercase(label: &str) -> (upper: String)
    ensures
        upper@ == uppercase(label@),
{
    label.to_uppercase()
}

/// The five severity labels with their ranks.
pub open spec fn standard_ranks() -> Map<Seq<char>, u128> {
    Map::<Seq<char>, u128>::empty().insert("INFORMATIONAL"@, 1u128).insert("LOW"@, 2u128).insert(
        "MEDIUM"@,
        3u128,
    ).insert("HIGH"@, 4u128).insert("CRITICAL"@, 5u128)
}

/// The label of the lowest severity, which a rule has where it names no level.
pub open spec fn lowest_label() -> Seq<char> {
    "INFORMATIONAL"@
}

/// The rank of a rule whose `level` field is `level`: the rank of the upper-case label,
/// that of the lowest label where the rule names no level, and 1 where the table does
/// not know the label.
pub open spec fn document_rank(ranks: Map<Seq<char>, u128>, level: Option<Seq<char>>) -> u128 {
    match level {
        Some(l) => number_or(ranks, uppercase(l), 1),
        None => number_or(ranks, lowest_label(), 1),
    }
}

/// The rank below which rules are rejected: that of `min_level`, and 1 where the table
/// does not know the label.
pub open spec fn floor_rank(ranks: Map<Seq<char>, u128>, min_level: Seq<char>) -> u128 {
    number_or(ranks, min_level, 1)
}

/// The one rank that is admitted: that of `target_level`, and 0, which stands for no
/// such restriction, where the table does not know the label.
pub open spec fn exact_rank(ranks: Map<Seq<char>, u128>, target_level: Seq<char>) -> u128 {
    number_or(ranks, target_level, 0)
}

/// A rule of rank `rank` lies in the band that `floor` and `exact` admit.
pub open spec fn in_band(rank: u128, floor: u128, exact: u128) -> bool {
    rank >= floor && (exact == 0 || rank == exact)
}

/// The table of the five severity labels.
pub fn standard_level_map() -> (m: LabelMap)
    ensures
        m@ == standard_ranks(),
{
    let mut m = LabelMap::empty();
    assert(m@ =~= Map::<Seq<char>, u128>::empty());
    m.store("INFORMATIONAL", 1);
    m.store("LOW", 2);
    m.store("MEDIUM", 3);
    m.store("HIGH", 4);
    m.store("CRITICAL", 5);
    m
}

/// The rank of a rule from its `level` field.
pub fn rank_of_level(ranks: &LabelMap, level: Option<&str>) -> (rank: u128)
    ensures
        rank == document_rank(ranks@, crate::document::text_of(level)),
{
    match level {
        Some(l) => {
            let upper = to_uppercase(l);
            ranks.get_or(upper.as_str(), 1)
        },
        None => ranks.get_or("INFORMATIONAL", 1),
    }
}

/// Whether a rule of rank `rank` lies in the band that `floor` and `exact` admit.
pub fn passes_band(rank: u128, floor: u128, exact: u128) -> (ok: bool)
    ensures
        ok == in_band(rank, floor, exact),
{
    !(rank < floor || (exact != 0 && rank != exact))
}

/// With a floor and no exact rank, a rule lies in the band exactly if its rank is at
/// least the floor.
pub proof fn lemma_floor_admits_at_or_above(rank: u128, floor: u128, exact: u128)
    requires
        floor > 0,
        exact == 0,
    ensures
        in_band(rank, floor, exact) <==> rank >= floor,
{
}

/// With an exact rank, a rule lies in the band exactly if it has that rank, as long as
/// the floor does not lie above the exact rank itself.
pub proof fn lemma_exact_admits_only_that_rank(rank: u128, floor: u128, exact: u128)
    requires
        exact > 0,
        rank == exact ==> floor <= exact,
    ensures
        in_band(rank, floor, exact) <==> rank == exact,
{
}

/// Under the standard table every rank is between 1 and 5, and a rule without a level
/// has rank 1.
pub proof fn lemma_standard_ranks(level: Option<Seq<char>>)
    ensures
        1 <= document_rank(standard_ranks(), level) <= 5,
        document_rank(standard_ranks(), None) == 1,
{
    reveal_strlit("INFORMATIONAL");
    reveal_strlit("LOW");
    reveal_strlit("MEDIUM");
    reveal_strlit("HIGH");
    reveal_strlit("CRITICAL");
    assert("INFORMATIONAL"@.len() == 13);
    assert("LOW"@.len() == 3);
    assert("MEDIUM"@.len() == 6);
    assert("HIGH"@.len() == 4);
    assert("CRITICAL"@.len() == 8);
}

} // verus!
