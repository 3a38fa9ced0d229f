use vstd::prelude::*;
use crate::dice::{
    WeightedChoice, new_roller, pick_weighted, total_weight, lemma_total_weight_positive,
    at_most_one_zero_weight, positive_count, lemma_positive_count_total,
};
use crate::galaxy_types::{
    GalacticNeighborhood, GalaxyCategory, GalaxySatellites, GalaxySettings, GalaxySpecialTrait,
    GalaxySubCategory, StelliferousEra, category_kind, trait_kind,
};
use crate::dice::{roll_dice, lemma_total_weight_bound};
use crate::trait_table::{is_dwarf, is_full_trait_list, get_full_list_of_traits, lemma_full_trait_list_weights};
use crate::text::numbered_step;
use crate::trait_lists::{
    kinds_of, results_of, has_kind, distinct_kinds, without_first_of_kind,
    choices_without_first_of_kind, lemma_without_first_of_kind,
    lemma_choices_without_first_of_kind, lemma_choices_without_first_of_kind_results,
    lemma_lost_in_without_first_of_kind, remove_specific_trait, remove_specific_possible_trait,
    contains_kind, copy_traits,
};

verus! {

/// Two groups of traits that exclude each other: a galaxy gaining a trait of one group loses the
/// traits it had of the other group.
#[derive(Clone, Debug)]
pub struct OppositeTraits(pub Vec<GalaxySpecialTrait>, pub Vec<GalaxySpecialTrait>);

/// The traits opposed to `t` in `table`: the other group of the first pair holding a trait of the
/// same kind as `t`, if any.
pub open spec fn opposites_of(table: Seq<OppositeTraits>, t: GalaxySpecialTrait) -> Option<
    Seq<GalaxySpecialTrait>,
>
    decreases table.len(),
{
    if table.len() == 0 {
        None
    } else if has_kind(table[0].0@, trait_kind(t)) {
        Some(table[0].1@)
    } else if has_kind(table[0].1@, trait_kind(t)) {
        Some(table[0].0@)
    } else {
        opposites_of(table.drop_first(), t)
    }
}

/// `ts` without the first trait of the kind of each of `ops`, taken in order.
pub open spec fn without_kinds_of(ts: Seq<GalaxySpecialTrait>, ops: Seq<GalaxySpecialTrait>) -> Seq<
    GalaxySpecialTrait,
>
    decreases ops.len(),
{
    if ops.len() == 0 {
        ts
    } else {
        without_first_of_kind(without_kinds_of(ts, ops.drop_last()), trait_kind(ops.last()))
    }
}

/// The list `ts` once the traits opposed to `t` have been removed from it.
pub open spec fn without_opposites(
    ts: Seq<GalaxySpecialTrait>,
    table: Seq<OppositeTraits>,
    t: GalaxySpecialTrait,
) -> Seq<GalaxySpecialTrait> {
    match opposites_of(table, t) {
        Some(ops) => without_kinds_of(ts, ops),
        None => ts,
    }
}

/// A list of special traits once cleaned: an empty list becomes "no peculiarity", and a longer
/// list loses its first "no peculiarity" entry.
pub open spec fn cleaned_traits(ts: Seq<GalaxySpecialTrait>) -> Seq<GalaxySpecialTrait> {
    if ts.len() < 1 {
        seq![GalaxySpecialTrait::NoPeculiarity]
    } else if ts.len() > 1 && has_kind(ts, 0) {
        without_first_of_kind(ts, 0)
    } else {
        ts
    }
}

/// Removing the first trait of each opposite kind from a list of distinct kinds leaves a list of
/// distinct kinds with none of those kinds, made of traits of the list it started from.
pub proof fn lemma_without_kinds_of(ts: Seq<GalaxySpecialTrait>, ops: Seq<GalaxySpecialTrait>)
    ensures
        forall|x: GalaxySpecialTrait| #[trigger] without_kinds_of(ts, ops).contains(x) ==> ts.contains(x),
        without_kinds_of(ts, ops).len() <= ts.len(),
        distinct_kinds(ts) ==> distinct_kinds(without_kinds_of(ts, ops)),
        distinct_kinds(ts) ==> forall|j: int|
            0 <= j < ops.len() ==> !has_kind(without_kinds_of(ts, ops), trait_kind(#[trigger] ops[j])),
    decreases ops.len(),
{
    if ops.len() > 0 {
        let prev = without_kinds_of(ts, ops.drop_last());
        lemma_without_kinds_of(ts, ops.drop_last());
        let k = trait_kind(ops.last());
        lemma_without_first_of_kind(prev, k);
        let r = without_kinds_of(ts, ops);
        assert forall|x: GalaxySpecialTrait| #[trigger] r.contains(x) implies ts.contains(x) by {
            assert(prev.contains(x));
        }
        if distinct_kinds(ts) {
            assert forall|j: int| 0 <= j < ops.len() implies !has_kind(r, trait_kind(#[trigger] ops[j])) by {
                if j < ops.len() - 1 {
                    assert(ops.drop_last()[j] == ops[j]);
                    assert(!has_kind(prev, trait_kind(ops[j])));
                    if has_kind(r, trait_kind(ops[j])) {
                        let m = choose|m: int| 0 <= m < r.len() && trait_kind(#[trigger] r[m]) == trait_kind(ops[j]);
                        assert(r.contains(r[m]));
                        assert(prev.contains(r[m]));
                        let n = choose|n: int| 0 <= n < prev.len() && prev[n] == r[m];
                        assert(trait_kind(prev[n]) == trait_kind(ops[j]));
                    }
                }
            }
        }
    }
}

/// The traits opposed to `t` in `table`: the other group of the first pair that holds a trait of
/// the same kind as `t`.
fn find_opposites(table: &Vec<OppositeTraits>, t: GalaxySpecialTrait) -> (r: Option<&Vec<GalaxySpecialTrait>>)
    ensures
        match r {
            Some(v) => opposites_of(table@, t) == Some(v@),
            None => opposites_of(table@, t) is None,
        },
{
    let mut i: usize = 0;
    assert(table@.skip(0) =~= table@);
    while i < table.len()
        invariant
            0 <= i <= table.len(),
            opposites_of(table@, t) == opposites_of(table@.skip(i as int), t),
        decreases table.len() - i,
    {
        let ghost rest = table@.skip(i as int);
        assert(rest[0] == table@[i as int]);
        assert(rest.drop_first() =~= table@.skip(i + 1));
        if contains_kind(&table[i].0, t) {
            return Some(&table[i].1);
        } else if contains_kind(&table[i].1, t) {
            return Some(&table[i].0);
        }
        i = i + 1;
    }
    None
}

/// Removes from **list_to_fill** the traits that are incompatible with the given
/// **possible_trait**, using the **opposite_traits_list** as a reference to determine what is
/// compatible or not.
pub fn remove_opposite_traits(
    possible_trait: GalaxySpecialTrait,
    opposite_traits_list: &Vec<OppositeTraits>,
    list_to_fill: &mut Vec<GalaxySpecialTrait>,
)
    ensures
        final(list_to_fill)@ == without_opposites(old(list_to_fill)@, opposite_traits_list@, possible_trait),
{
    match find_opposites(opposite_traits_list, possible_trait) {
        Some(opposites) => {
            let mut i: usize = 0;
            while i < opposites.len()
                invariant
                    0 <= i <= opposites.len(),
                    list_to_fill@ == without_kinds_of(old(list_to_fill)@, opposites@.take(i as int)),
                decreases opposites.len() - i,
            {
                let opposite = opposites[i];
                if contains_kind(list_to_fill, opposite) {
                    remove_specific_trait(list_to_fill, opposite);
                } else {
                    proof {
                        lemma_without_first_of_kind(list_to_fill@, trait_kind(opposite));
                    }
                }
                assert(opposites@.take(i + 1).drop_last() =~= opposites@.take(i as int));
                i = i + 1;
            }
            assert(opposites@.take(opposites.len() as int) =~= opposites@);
        },
        None => {},
    }
}

/// If no traits, adds the "NoPeculiarity" one, otherwise checks if it's present and removes it.
pub fn clean_special_traits(special_traits: &mut Vec<GalaxySpecialTrait>) -> (r: Vec<GalaxySpecialTrait>)
    ensures
        final(special_traits)@ == cleaned_traits(old(special_traits)@),
        r@ == final(special_traits)@,
{
    if special_traits.len() < 1 {
        special_traits.push(GalaxySpecialTrait::NoPeculiarity);
        assert(special_traits@ =~= seq![GalaxySpecialTrait::NoPeculiarity]);
    } else if special_traits.len() > 1 && contains_kind(special_traits, GalaxySpecialTrait::NoPeculiarity) {
        remove_specific_trait(special_traits, GalaxySpecialTrait::NoPeculiarity);
    }
    copy_traits(special_traits)
}

/// A cleaned list is never empty, and when the list had distinct kinds, "no peculiarity" is only
/// ever found alone in it.
pub proof fn lemma_cleaned_traits(ts: Seq<GalaxySpecialTrait>)
    ensures
        cleaned_traits(ts).len() >= 1,
        distinct_kinds(ts) ==> distinct_kinds(cleaned_traits(ts)),
        distinct_kinds(ts) && has_kind(cleaned_traits(ts), 0) ==> cleaned_traits(ts).len() == 1,
{
    lemma_without_first_of_kind(ts, 0);
    if ts.len() > 1 && has_kind(ts, 0) {
        let i = choose|i: int| 0 <= i < ts.len() && trait_kind(#[trigger] ts[i]) == 0;
        let r = without_first_of_kind(ts, 0);
        if r.len() == 0 {
            assert(ts.len() == 1) by {
                crate::trait_lists::lemma_first_index_of(kinds_of(ts), 0);
            }
        }
    }
    if ts.len() < 1 {
        assert(trait_kind(GalaxySpecialTrait::NoPeculiarity) == 0);
    }
}

/// The list `ts` once `t` is added to it: the traits opposed to `t` are removed, then `t` is
/// pushed at the end.
pub open spec fn with_pick(
    ts: Seq<GalaxySpecialTrait>,
    table: Seq<OppositeTraits>,
    t: GalaxySpecialTrait,
) -> Seq<GalaxySpecialTrait> {
    without_opposites(ts, table, t).push(t)
}

/// The list `ts` once each of `picks` is added to it in turn.
pub open spec fn apply_picks(
    ts: Seq<GalaxySpecialTrait>,
    picks: Seq<GalaxySpecialTrait>,
    table: Seq<OppositeTraits>,
) -> Seq<GalaxySpecialTrait>
    decreases picks.len(),
{
    if picks.len() == 0 {
        ts
    } else {
        with_pick(apply_picks(ts, picks.drop_last(), table), table, picks.last())
    }
}

/// Whether `picks` can be the traits added, in order, to `ts` from the choices `possible`: each
/// is the trait of one of the choices, and none is of a kind the list holds when it is added.
pub open spec fn are_valid_picks(
    ts: Seq<GalaxySpecialTrait>,
    picks: Seq<GalaxySpecialTrait>,
    possible: Seq<WeightedChoice<GalaxySpecialTrait>>,
    table: Seq<OppositeTraits>,
) -> bool {
    forall|k: int| 0 <= k < picks.len() ==> {
        &&& results_of(possible).contains(#[trigger] picks[k])
        &&& !has_kind(apply_picks(ts, picks.take(k), table), trait_kind(picks[k]))
    }
}

/// Whether `table` opposes the trait `x` to the trait `t`.
pub open spec fn is_opposed(table: Seq<OppositeTraits>, t: GalaxySpecialTrait, x: GalaxySpecialTrait) -> bool {
    match opposites_of(table, t) {
        Some(ops) => has_kind(ops, trait_kind(x)),
        None => false,
    }
}

/// Whether every draw among `possible` can be added to `ts`: there are at least `to_add`
/// choices, their traits are of distinct kinds, and none is of a kind `ts` holds.
pub open spec fn picks_always_fit(
    ts: Seq<GalaxySpecialTrait>,
    possible: Seq<WeightedChoice<GalaxySpecialTrait>>,
    to_add: int,
) -> bool {
    &&& possible.len() >= to_add
    &&& distinct_kinds(results_of(possible))
    &&& forall|i: int| 0 <= i < possible.len() ==> !has_kind(ts, trait_kind(#[trigger] possible[i].result))
}

/// Whether `new` is what adding up to `to_add` random traits of `possible` to `ts` can give: `ts`
/// after a sequence of valid picks, exactly `to_add` of them when every draw can be added; a
/// trait of `ts` is lost only as a trait opposed to one of the picks.
pub open spec fn is_random_traits_outcome(
    ts: Seq<GalaxySpecialTrait>,
    possible: Seq<WeightedChoice<GalaxySpecialTrait>>,
    to_add: int,
    table: Seq<OppositeTraits>,
    new: Seq<GalaxySpecialTrait>,
) -> bool {
    exists|picks: Seq<GalaxySpecialTrait>| {
        &&& #[trigger] apply_picks(ts, picks, table) == new
        &&& are_valid_picks(ts, picks, possible, table)
        &&& picks.len() <= (if to_add > 0 { to_add } else { 0 })
        &&& picks_always_fit(ts, possible, to_add) && to_add > 0 ==> picks.len() == to_add
        &&& forall|x: GalaxySpecialTrait| #[trigger] ts.contains(x) && !new.contains(x) ==>
            exists|k: int| 0 <= k < picks.len() && is_opposed(table, #[trigger] picks[k], x)
    }
}

/// A trait of `ts` that is not left once the first trait of each kind of `ops` is removed is of
/// one of those kinds.
pub proof fn lemma_lost_in_without_kinds_of(
    ts: Seq<GalaxySpecialTrait>,
    ops: Seq<GalaxySpecialTrait>,
    x: GalaxySpecialTrait,
)
    requires
        ts.contains(x),
        !without_kinds_of(ts, ops).contains(x),
    ensures
        has_kind(ops, trait_kind(x)),
    decreases ops.len(),
{
    let prev = without_kinds_of(ts, ops.drop_last());
    if prev.contains(x) {
        lemma_lost_in_without_first_of_kind(prev, trait_kind(ops.last()), x);
        assert(trait_kind(ops[ops.len() - 1]) == trait_kind(x));
    } else {
        lemma_lost_in_without_kinds_of(ts, ops.drop_last(), x);
        let i = choose|i: int| 0 <= i < ops.drop_last().len() && trait_kind(#[trigger] ops.drop_last()[i]) == trait_kind(x);
        assert(ops[i] == ops.drop_last()[i]);
    }
}

/// A trait of a list is lost, as traits are added to it, only as a trait opposed to one of the
/// added traits.
pub proof fn lemma_lost_only_as_opposites(
    ts: Seq<GalaxySpecialTrait>,
    picks: Seq<GalaxySpecialTrait>,
    table: Seq<OppositeTraits>,
    x: GalaxySpecialTrait,
)
    requires
        ts.contains(x),
        !apply_picks(ts, picks, table).contains(x),
    ensures
        exists|k: int| 0 <= k < picks.len() && is_opposed(table, #[trigger] picks[k], x),
    decreases picks.len(),
{
    let mid = apply_picks(ts, picks.drop_last(), table);
    if mid.contains(x) {
        let t = picks.last();
        let removed = without_opposites(mid, table, t);
        if removed.contains(x) {
            let m = choose|m: int| 0 <= m < removed.len() && removed[m] == x;
            assert(with_pick(mid, table, t)[m] == x);
        }
        match opposites_of(table, t) {
            Some(ops) => lemma_lost_in_without_kinds_of(mid, ops, x),
            None => {},
        }
        assert(is_opposed(table, picks[picks.len() - 1], x));
    } else {
        lemma_lost_only_as_opposites(ts, picks.drop_last(), table, x);
        let k = choose|k: int| 0 <= k < picks.drop_last().len() && is_opposed(table, #[trigger] picks.drop_last()[k], x);
        assert(picks[k] == picks.drop_last()[k]);
    }
}

/// Adds **to_add** traits from the given list of **possible_traits** to an existing
/// **list_to_fill**: each pick of a trait whose kind is not in the list yet removes its opposite
/// traits from the list, adds it, and withdraws it from the possible traits. Picks of a kind
/// already present are drawn again. After 2^64 - 1 draws the list is returned as it stands.
/// Which traits are drawn depends on the seed: the list comes out as the old list after a
/// sequence of valid picks, exactly **to_add** of them when every draw can be added. A draw
/// among two or more traits needs some weight, so at most one trait may weigh nothing, or at
/// least **to_add** traits must weigh something.
pub fn add_random_traits(
    to_add: i32,
    possible_traits: Vec<WeightedChoice<GalaxySpecialTrait>>,
    list_to_fill: &mut Vec<GalaxySpecialTrait>,
    index: u16,
    seed: &str,
    opposite_traits: &Vec<OppositeTraits>,
) -> (r: Vec<GalaxySpecialTrait>)
    requires
        to_add > 0 ==> at_most_one_zero_weight(possible_traits@) || positive_count(possible_traits@) >= to_add,
        total_weight(possible_traits@) <= u32::MAX,
    ensures
        r@ == final(list_to_fill)@,
        is_random_traits_outcome(
            old(list_to_fill)@,
            possible_traits@,
            to_add as int,
            opposite_traits@,
            final(list_to_fill)@,
        ),
        forall|x: GalaxySpecialTrait| #[trigger] old(list_to_fill)@.contains(x) && !final(list_to_fill)@.contains(x)
            ==> exists|t: GalaxySpecialTrait| results_of(possible_traits@).contains(t) && #[trigger] is_opposed(opposite_traits@, t, x),
        distinct_kinds(old(list_to_fill)@) ==> distinct_kinds(final(list_to_fill)@),
        forall|x: GalaxySpecialTrait| #[trigger] final(list_to_fill)@.contains(x) ==>
            old(list_to_fill)@.contains(x) || results_of(possible_traits@).contains(x),
        final(list_to_fill)@.len() <= old(list_to_fill)@.len() + (if to_add > 0 { to_add as int } else { 0 }),
        to_add <= 0 ==> final(list_to_fill)@ == old(list_to_fill)@,
{
    let mut rng = new_roller(seed, numbered_step("gal_", index as u64, "_art").as_str());
    let ghost initial = possible_traits@;
    let ghost fit = picks_always_fit(old(list_to_fill)@, initial, to_add as int);
    let ghost table = opposite_traits@;
    let ghost mut picks: Seq<GalaxySpecialTrait> = Seq::empty();
    let mut possible_traits = possible_traits;
    let mut turn: i32 = 0;
    let mut attempts_left: u64 = u64::MAX;
    while turn < to_add && attempts_left > 0
        invariant
            0 <= turn,
            to_add > 0 ==> turn <= to_add,
            to_add <= 0 ==> turn == 0,
            table == opposite_traits@,
            fit == picks_always_fit(old(list_to_fill)@, initial, to_add as int),
            to_add > 0 ==> at_most_one_zero_weight(initial) || positive_count(initial) >= to_add,
            to_add > 0 && at_most_one_zero_weight(initial) ==> at_most_one_zero_weight(possible_traits@),
            to_add > 0 && positive_count(initial) >= to_add ==> positive_count(possible_traits@) + turn >= to_add,
            total_weight(possible_traits@) <= total_weight(initial),
            total_weight(initial) <= u32::MAX,
            forall|y: WeightedChoice<GalaxySpecialTrait>| #[trigger] possible_traits@.contains(y) ==> initial.contains(y),
            picks.len() == turn,
            list_to_fill@ == apply_picks(old(list_to_fill)@, picks, table),
            are_valid_picks(old(list_to_fill)@, picks, initial, table),
            forall|x: GalaxySpecialTrait| #[trigger] list_to_fill@.contains(x) ==>
                old(list_to_fill)@.contains(x) || results_of(initial).contains(x),
            distinct_kinds(old(list_to_fill)@) ==> distinct_kinds(list_to_fill@),
            list_to_fill@.len() <= old(list_to_fill)@.len() + turn,
            to_add <= 0 ==> list_to_fill@ == old(list_to_fill)@,
            fit && to_add > 0 ==> {
                &&& attempts_left == u64::MAX - turn
                &&& possible_traits@.len() + turn == initial.len()
                &&& distinct_kinds(results_of(possible_traits@))
                &&& forall|i: int| 0 <= i < possible_traits@.len() ==>
                    !has_kind(list_to_fill@, trait_kind(#[trigger] possible_traits@[i].result))
            },
        decreases attempts_left,
    {
        attempts_left = attempts_left - 1;
        proof {
            if possible_traits@.len() >= 2 {
                if at_most_one_zero_weight(initial) {
                    lemma_total_weight_positive(possible_traits@);
                } else {
                    lemma_positive_count_total(possible_traits@);
                }
            }
        }
        let entry_found = pick_weighted(&mut rng, &possible_traits);
        proof {
            if fit && to_add > 0 {
                assert(possible_traits@.len() >= 1);
                assert(entry_found is Some);
                let p = entry_found->Some_0;
                let i = if possible_traits@.len() == 1 {
                    0int
                } else {
                    choose|i: int| 0 <= i < possible_traits@.len() && possible_traits@[i].weight > 0
                        && #[trigger] possible_traits@[i].result == p
                };
                assert(possible_traits@[i].result == p);
                assert(!has_kind(list_to_fill@, trait_kind(p)));
            }
        }
        if let Some(possible_trait) = entry_found {
            if !contains_kind(list_to_fill, possible_trait) {
                let ghost before = list_to_fill@;
                let ghost i = choose|i: int| 0 <= i < possible_traits@.len() && #[trigger] possible_traits@[i].result == possible_trait;
                proof {
                    assert(possible_traits@.contains(possible_traits@[i]));
                    let j = choose|j: int| 0 <= j < initial.len() && initial[j] == possible_traits@[i];
                    assert(results_of(initial)[j] == possible_trait);
                    assert(results_of(initial).contains(possible_trait));
                }
                turn = turn + 1;
                remove_opposite_traits(possible_trait, opposite_traits, list_to_fill);
                let ghost after_removal = list_to_fill@;
                proof {
                    match opposites_of(opposite_traits@, possible_trait) {
                        Some(ops) => lemma_without_kinds_of(before, ops),
                        None => {},
                    }
                    if has_kind(after_removal, trait_kind(possible_trait)) {
                        let m = choose|m: int| 0 <= m < after_removal.len() && trait_kind(#[trigger] after_removal[m]) == trait_kind(possible_trait);
                        assert(after_removal.contains(after_removal[m]));
                        let n = choose|n: int| 0 <= n < before.len() && before[n] == after_removal[m];
                        assert(trait_kind(before[n]) == trait_kind(possible_trait));
                    }
                }
                list_to_fill.push(possible_trait);
                proof {
                    let l = list_to_fill@;
                    assert forall|x: GalaxySpecialTrait| #[trigger] l.contains(x) implies
                        old(list_to_fill)@.contains(x) || results_of(initial).contains(x) by {
                        let m = choose|m: int| 0 <= m < l.len() && l[m] == x;
                        if m < l.len() - 1 {
                            assert(after_removal.contains(after_removal[m]));
                            assert(before.contains(x));
                        }
                    }
                    if distinct_kinds(old(list_to_fill)@) {
                        assert forall|a: int, b: int|
                            0 <= a < l.len() && 0 <= b < l.len() && a != b implies trait_kind(#[trigger] l[a])
                            != trait_kind(#[trigger] l[b]) by {
                            if a == l.len() - 1 {
                                assert(after_removal[b] == l[b]);
                            } else if b == l.len() - 1 {
                                assert(after_removal[a] == l[a]);
                            } else {
                                assert(after_removal[a] == l[a]);
                                assert(after_removal[b] == l[b]);
                            }
                        }
                    }
                    let next = picks.push(possible_trait);
                    assert(next.drop_last() =~= picks);
                    assert(next.take(picks.len() as int) =~= picks);
                    assert forall|k: int| 0 <= k < next.len() implies {
                        &&& results_of(initial).contains(#[trigger] next[k])
                        &&& !has_kind(apply_picks(old(list_to_fill)@, next.take(k), table), trait_kind(next[k]))
                    } by {
                        if k < picks.len() {
                            assert(next.take(k) =~= picks.take(k));
                            assert(next[k] == picks[k]);
                        }
                    }
                    picks = next;
                }
                let ghost p_before = possible_traits@;
                remove_specific_possible_trait(&mut possible_traits, possible_trait);
                proof {
                    let k = trait_kind(possible_trait);
                    lemma_choices_without_first_of_kind(p_before, k);
                    lemma_choices_without_first_of_kind_results(p_before, k);
                    assert(results_of(p_before)[i] == possible_trait);
                    assert(has_kind(results_of(p_before), k));
                    assert forall|y: WeightedChoice<GalaxySpecialTrait>| #[trigger] possible_traits@.contains(y) implies initial.contains(y) by {
                        assert(p_before.contains(y));
                    }
                    if fit && to_add > 0 {
                        lemma_without_first_of_kind(results_of(p_before), k);
                        let l = list_to_fill@;
                        let rest = possible_traits@;
                        assert forall|q: int| 0 <= q < rest.len() implies
                            !has_kind(l, trait_kind(#[trigger] rest[q].result)) by {
                            assert(results_of(rest)[q] == rest[q].result);
                            assert(trait_kind(rest[q].result) != k);
                            assert(rest.contains(rest[q]));
                            assert(p_before.contains(rest[q]));
                            let n = choose|n: int| 0 <= n < p_before.len() && p_before[n] == rest[q];
                            assert(!has_kind(before, trait_kind(p_before[n].result)));
                            if has_kind(l, trait_kind(rest[q].result)) {
                                let m = choose|m: int| 0 <= m < l.len() && trait_kind(#[trigger] l[m]) == trait_kind(rest[q].result);
                                assert(m < l.len() - 1);
                                assert(after_removal[m] == l[m]);
                                assert(after_removal.contains(l[m]));
                                assert(before.contains(l[m]));
                                let n2 = choose|n2: int| 0 <= n2 < before.len() && before[n2] == l[m];
                                assert(trait_kind(before[n2]) == trait_kind(rest[q].result));
                            }
                        }
                    }
                }
            }
        }
    }
    proof {
        assert forall|x: GalaxySpecialTrait| #[trigger] old(list_to_fill)@.contains(x) && !list_to_fill@.contains(x)
            implies exists|k: int| 0 <= k < picks.len() && is_opposed(table, #[trigger] picks[k], x) by {
            lemma_lost_only_as_opposites(old(list_to_fill)@, picks, table, x);
        }
        assert(fit && to_add > 0 ==> picks.len() == to_add);
        assert(picks.len() <= (if to_add > 0 { to_add as int } else { 0 }));
        assert(is_random_traits_outcome(old(list_to_fill)@, initial, to_add as int, table, list_to_fill@));
        assert forall|x: GalaxySpecialTrait| #[trigger] old(list_to_fill)@.contains(x) && !list_to_fill@.contains(x)
            implies exists|t: GalaxySpecialTrait| results_of(initial).contains(t) && #[trigger] is_opposed(table, t, x) by {
            lemma_lost_only_as_opposites(old(list_to_fill)@, picks, table, x);
            let k = choose|k: int| 0 <= k < picks.len() && is_opposed(table, #[trigger] picks[k], x);
            assert(results_of(initial).contains(picks[k]));
        }
    }
    copy_traits(list_to_fill)
}

/// The choices of `ws` whose trait is of none of the kinds of `forbidden`, in order.
pub open spec fn allowed_choices(
    ws: Seq<WeightedChoice<GalaxySpecialTrait>>,
    forbidden: Seq<GalaxySpecialTrait>,
) -> Seq<WeightedChoice<GalaxySpecialTrait>>
    decreases ws.len(),
{
    if ws.len() == 0 {
        ws
    } else {
        let rest = allowed_choices(ws.drop_last(), forbidden);
        if has_kind(forbidden, trait_kind(ws.last().result)) {
            rest
        } else {
            rest.push(ws.last())
        }
    }
}

/// `ws` without the first choice of the kind of each of `ops`, taken in order.
pub open spec fn choices_without_kinds_of(
    ws: Seq<WeightedChoice<GalaxySpecialTrait>>,
    ops: Seq<GalaxySpecialTrait>,
) -> Seq<WeightedChoice<GalaxySpecialTrait>>
    decreases ops.len(),
{
    if ops.len() == 0 {
        ws
    } else {
        choices_without_first_of_kind(choices_without_kinds_of(ws, ops.drop_last()), trait_kind(ops.last()))
    }
}

/// The traits a galaxy of the given category and sub-category can never have, whatever the
/// settings say.
pub open spec fn traits_excluded_for(c: GalaxyCategory, s: GalaxySubCategory) -> Seq<GalaxySpecialTrait> {
    if is_dwarf(s) {
        seq![
            GalaxySpecialTrait::ActiveNucleus,
            GalaxySpecialTrait::DoubleNuclei,
            GalaxySpecialTrait::ExtendedHalo,
            GalaxySpecialTrait::Satellites(GalaxySatellites::NoSatellites),
        ]
    } else if s == GalaxySubCategory::GiantElliptical || s == GalaxySubCategory::GiantLenticular
        || category_kind(c) == 6 {
        seq![GalaxySpecialTrait::SubSize(0)]
    } else if category_kind(c) == 4 {
        seq![GalaxySpecialTrait::GasRich]
    } else if category_kind(c) == 3 {
        seq![GalaxySpecialTrait::GasRich, GalaxySpecialTrait::MetalPoor]
    } else if s == GalaxySubCategory::Amorphous {
        seq![
            GalaxySpecialTrait::ActiveNucleus,
            GalaxySpecialTrait::ExtendedHalo,
            GalaxySpecialTrait::GasPoor,
            GalaxySpecialTrait::MetalPoor,
        ]
    } else {
        seq![]
    }
}

/// The view of an optional list.
pub open spec fn optional_view(o: Option<Vec<GalaxySpecialTrait>>) -> Option<Seq<GalaxySpecialTrait>> {
    match o {
        Some(v) => Some(v@),
        None => None,
    }
}

/// The traits of `all` a galaxy of the given category and sub-category may be given: those not of
/// a kind of the `forbidden` list, if any, without the first trait of each kind excluded for
/// that category and sub-category.
pub open spec fn allowed_traits(
    c: GalaxyCategory,
    s: GalaxySubCategory,
    forbidden: Option<Seq<GalaxySpecialTrait>>,
    all: Seq<WeightedChoice<GalaxySpecialTrait>>,
) -> Seq<WeightedChoice<GalaxySpecialTrait>> {
    let kept = match forbidden {
        Some(f) => allowed_choices(all, f),
        None => all,
    };
    choices_without_kinds_of(kept, traits_excluded_for(c, s))
}

/// The allowed choices of a list are choices of the list.
pub proof fn lemma_allowed_choices(ws: Seq<WeightedChoice<GalaxySpecialTrait>>, forbidden: Seq<GalaxySpecialTrait>)
    ensures
        forall|x: WeightedChoice<GalaxySpecialTrait>| #[trigger] allowed_choices(ws, forbidden).contains(x) ==> ws.contains(x),
        allowed_choices(ws, forbidden).len() <= ws.len(),
    decreases ws.len(),
{
    if ws.len() > 0 {
        lemma_allowed_choices(ws.drop_last(), forbidden);
        let rest = allowed_choices(ws.drop_last(), forbidden);
        assert forall|x: WeightedChoice<GalaxySpecialTrait>| #[trigger] allowed_choices(ws, forbidden).contains(x) implies ws.contains(x) by {
            if rest.contains(x) {
                let j = choose|j: int| 0 <= j < ws.drop_last().len() && ws.drop_last()[j] == x;
                assert(ws[j] == x);
            } else {
                assert(x == ws.last());
                assert(ws[ws.len() - 1] == x);
            }
        }
    }
}

/// Removing the first choice of some kinds keeps only choices of the list.
pub proof fn lemma_choices_without_kinds_of(ws: Seq<WeightedChoice<GalaxySpecialTrait>>, ops: Seq<GalaxySpecialTrait>)
    ensures
        forall|x: WeightedChoice<GalaxySpecialTrait>| #[trigger] choices_without_kinds_of(ws, ops).contains(x) ==> ws.contains(x),
        choices_without_kinds_of(ws, ops).len() <= ws.len(),
    decreases ops.len(),
{
    if ops.len() > 0 {
        lemma_choices_without_kinds_of(ws, ops.drop_last());
        lemma_choices_without_first_of_kind(choices_without_kinds_of(ws, ops.drop_last()), trait_kind(ops.last()));
    }
}

/// The traits a galaxy may be given are traits of the full list.
pub proof fn lemma_allowed_traits(
    c: GalaxyCategory,
    s: GalaxySubCategory,
    forbidden: Option<Seq<GalaxySpecialTrait>>,
    all: Seq<WeightedChoice<GalaxySpecialTrait>>,
)
    ensures
        forall|x: WeightedChoice<GalaxySpecialTrait>| #[trigger] allowed_traits(c, s, forbidden, all).contains(x) ==> all.contains(x),
        allowed_traits(c, s, forbidden, all).len() <= all.len(),
{
    let kept = match forbidden {
        Some(f) => allowed_choices(all, f),
        None => all,
    };
    match forbidden {
        Some(f) => lemma_allowed_choices(all, f),
        None => {},
    }
    lemma_choices_without_kinds_of(kept, traits_excluded_for(c, s));
}

/// Removes any eventual traits marked as forbidden in the settings, then the traits a galaxy of
/// this category and sub-category can never have.
#[verifier::rlimit(30)]
pub fn remove_forbidden_traits(
    category: GalaxyCategory,
    sub_category: GalaxySubCategory,
    settings: &GalaxySettings,
    all_special_traits: &Vec<WeightedChoice<GalaxySpecialTrait>>,
) -> (r: Vec<WeightedChoice<GalaxySpecialTrait>>)
    ensures
        r@ == allowed_traits(category, sub_category, optional_view(settings.forbidden_special_traits), all_special_traits@),
{
    let mut special_traits: Vec<WeightedChoice<GalaxySpecialTrait>> = Vec::new();
    match &settings.forbidden_special_traits {
        Some(traits_to_remove) => {
            let mut i: usize = 0;
            while i < all_special_traits.len()
                invariant
                    0 <= i <= all_special_traits.len(),
                    special_traits@ == allowed_choices(all_special_traits@.take(i as int), traits_to_remove@),
                decreases all_special_traits.len() - i,
            {
                let t = all_special_traits[i];
                assert(all_special_traits@.take(i + 1).drop_last() =~= all_special_traits@.take(i as int));
                assert(all_special_traits@.take(i + 1).last() == t);
                if !contains_kind(traits_to_remove, t.result) {
                    special_traits.push(t);
                }
                i = i + 1;
            }
            assert(all_special_traits@.take(all_special_traits.len() as int) =~= all_special_traits@);
        },
        None => {
            let mut i: usize = 0;
            while i < all_special_traits.len()
                invariant
                    0 <= i <= all_special_traits.len(),
                    special_traits@ == all_special_traits@.take(i as int),
                decreases all_special_traits.len() - i,
            {
                special_traits.push(all_special_traits[i]);
                i = i + 1;
                assert(special_traits@ =~= all_special_traits@.take(i as int));
            }
            assert(all_special_traits@.take(all_special_traits.len() as int) =~= all_special_traits@);
        },
    }
    let ghost kept = special_traits@;
    let ghost excluded = traits_excluded_for(category, sub_category);
    if sub_category == GalaxySubCategory::DwarfAmorphous
        || sub_category == GalaxySubCategory::DwarfElliptical
        || sub_category == GalaxySubCategory::DwarfLenticular
        || sub_category == GalaxySubCategory::DwarfSpiral {
        remove_specific_possible_trait(&mut special_traits, GalaxySpecialTrait::ActiveNucleus);
        remove_specific_possible_trait(&mut special_traits, GalaxySpecialTrait::DoubleNuclei);
        remove_specific_possible_trait(&mut special_traits, GalaxySpecialTrait::ExtendedHalo);
        remove_specific_possible_trait(
            &mut special_traits,
            GalaxySpecialTrait::Satellites(GalaxySatellites::NoSatellites),
        );
    } else if sub_category == GalaxySubCategory::GiantElliptical
        || sub_category == GalaxySubCategory::GiantLenticular || category.kind() == 6 {
        remove_specific_possible_trait(&mut special_traits, GalaxySpecialTrait::SubSize(0));
    } else if category.kind() == 4 {
        remove_specific_possible_trait(&mut special_traits, GalaxySpecialTrait::GasRich);
    } else if category.kind() == 3 {
        remove_specific_possible_trait(&mut special_traits, GalaxySpecialTrait::GasRich);
        remove_specific_possible_trait(&mut special_traits, GalaxySpecialTrait::MetalPoor);
    } else if sub_category == GalaxySubCategory::Amorphous {
        remove_specific_possible_trait(&mut special_traits, GalaxySpecialTrait::ActiveNucleus);
        remove_specific_possible_trait(&mut special_traits, GalaxySpecialTrait::ExtendedHalo);
        remove_specific_possible_trait(&mut special_traits, GalaxySpecialTrait::GasPoor);
        remove_specific_possible_trait(&mut special_traits, GalaxySpecialTrait::MetalPoor);
    }
    proof {
        reveal_with_fuel(choices_without_kinds_of, 5);
        assert(excluded.len() <= 4);
        if excluded.len() >= 1 {
            assert(excluded.drop_last().len() == excluded.len() - 1);
        }
        if excluded.len() == 4 {
            assert(excluded.drop_last().drop_last().drop_last().drop_last() =~= Seq::<GalaxySpecialTrait>::empty());
        } else if excluded.len() == 2 {
            assert(excluded.drop_last().drop_last() =~= Seq::<GalaxySpecialTrait>::empty());
        } else if excluded.len() == 1 {
            assert(excluded.drop_last() =~= Seq::<GalaxySpecialTrait>::empty());
        }
    }
    special_traits
}

/// How many random traits a list of rolls of a fifty-sided die gives: one per roll of at least 10.
pub open spec fn traits_from_rolls(rolls: Seq<u8>) -> int
    decreases rolls.len(),
{
    if rolls.len() == 0 {
        0
    } else {
        traits_from_rolls(rolls.drop_last()) + (if rolls.last() >= 10 { 1int } else { 0int })
    }
}

/// Whether `rolls` can be the rolls of a fifty-sided die counting random traits: at least one
/// roll, and every roll after the first following a 50.
pub open spec fn are_trait_rolls(rolls: Seq<u8>) -> bool {
    &&& rolls.len() >= 1
    &&& forall|i: int| 0 <= i < rolls.len() ==> 1 <= #[trigger] rolls[i] <= 50
    &&& forall|i: int| 1 <= i < rolls.len() ==> #[trigger] rolls[i - 1] == 50
}

/// Calculates the number of random traits this galaxy will have: one per roll of a fifty-sided
/// die of at least ten, rolling again as long as the die shows fifty. The rolls depend on the
/// seed and are not stated.
pub fn get_number_of_random_traits(index: u16, seed: &str) -> (r: i32)
    ensures
        r >= 0,
        exists|rolls: Seq<u8>| are_trait_rolls(rolls) && r == traits_from_rolls(rolls),
{
    let mut rng = new_roller(seed, numbered_step("gal_", index as u64, "_srt").as_str());
    let mut number_of_random_traits: i32 = 0;
    let mut roll: u8 = 0;
    let mut turn: i32 = 0;
    let ghost mut rolls: Seq<u8> = Seq::empty();
    while (roll == 50 || turn < 1) && turn < i32::MAX
        invariant
            0 <= number_of_random_traits <= turn,
            0 <= turn <= i32::MAX,
            turn == rolls.len(),
            number_of_random_traits == traits_from_rolls(rolls),
            forall|i: int| 0 <= i < rolls.len() ==> 1 <= #[trigger] rolls[i] <= 50,
            forall|i: int| 1 <= i < rolls.len() ==> #[trigger] rolls[i - 1] == 50,
            turn > 0 ==> roll == rolls.last(),
            turn == 0 ==> roll == 0,
        decreases i32::MAX - turn,
    {
        roll = roll_dice(&mut rng, 1, 50, 0) as u8;
        number_of_random_traits = number_of_random_traits + if roll < 10 { 0 } else { 1 };
        proof {
            let next = rolls.push(roll);
            assert(next.drop_last() == rolls);
            rolls = next;
        }
        turn = turn + 1;
    }
    assert(are_trait_rolls(rolls));
    number_of_random_traits
}

/// Whether `new_list` is what the age of the neighborhood's universe can make of `old_list`: in
/// the ancient and early eras the list may gain "younger", which it does for a universe younger
/// than 1.5 billion years; in the middle era it stays as it is; in the late and end eras it may
/// gain "older", which it does past 1500 billion years, then "dead" past 50000 billion years.
pub open spec fn is_age_step(
    neighborhood: GalacticNeighborhood,
    old_list: Seq<GalaxySpecialTrait>,
    new_list: Seq<GalaxySpecialTrait>,
) -> bool {
    let age = neighborhood.universe.age;
    match neighborhood.universe.era {
        StelliferousEra::AncientStelliferous | StelliferousEra::EarlyStelliferous => {
            &&& new_list == old_list || new_list == old_list.push(GalaxySpecialTrait::Younger)
            &&& age < 150 ==> new_list == old_list.push(GalaxySpecialTrait::Younger)
        },
        StelliferousEra::MiddleStelliferous => new_list == old_list,
        StelliferousEra::LateStelliferous | StelliferousEra::EndStelliferous => {
            let dead: Seq<GalaxySpecialTrait> = if age > 5000000 { seq![GalaxySpecialTrait::Dead] } else { seq![] };
            &&& new_list == old_list + dead || new_list == old_list.push(GalaxySpecialTrait::Older) + dead
            &&& age > 150000 ==> new_list == old_list.push(GalaxySpecialTrait::Older) + dead
        },
    }
}

/// Adds special traits to the given **list_to_fill** according to the universe's age and era:
/// young universes may make a galaxy younger, and old ones may make it older or dead.
pub fn add_age_related_traits(
    neighborhood: GalacticNeighborhood,
    list_to_fill: &mut Vec<GalaxySpecialTrait>,
    index: u16,
    seed: &str,
) -> (r: Vec<GalaxySpecialTrait>)
    ensures
        r@ == final(list_to_fill)@,
        is_age_step(neighborhood, old(list_to_fill)@, final(list_to_fill)@),
{
    let mut rng = new_roller(seed, numbered_step("gal_", index as u64, "_spa").as_str());
    let age = neighborhood.universe.age;
    match neighborhood.universe.era {
        StelliferousEra::AncientStelliferous | StelliferousEra::EarlyStelliferous => {
            if age < 150 || roll_dice(&mut rng, 1, 3, 0) == 1 {
                list_to_fill.push(GalaxySpecialTrait::Younger);
            }
        },
        StelliferousEra::MiddleStelliferous => {},
        StelliferousEra::LateStelliferous | StelliferousEra::EndStelliferous => {
            let ghost before = list_to_fill@;
            if age > 150000 || roll_dice(&mut rng, 1, 3, 0) == 1 {
                list_to_fill.push(GalaxySpecialTrait::Older);
            }
            let ghost middle = list_to_fill@;
            if age > 5000000 {
                list_to_fill.push(GalaxySpecialTrait::Dead);
                assert(list_to_fill@ =~= middle + seq![GalaxySpecialTrait::Dead]);
            } else {
                assert(list_to_fill@ =~= middle + Seq::<GalaxySpecialTrait>::empty());
            }
        },
    }
    copy_traits(list_to_fill)
}

/// Whether `x` is one of the traits a galaxy of the given density, category and sub-category may
/// draw at random, once the forbidden and excluded traits are taken away.
pub open spec fn may_be_drawn(
    x: GalaxySpecialTrait,
    neighborhood: GalacticNeighborhood,
    c: GalaxyCategory,
    s: GalaxySubCategory,
    forbidden: Option<Seq<GalaxySpecialTrait>>,
) -> bool {
    exists|all: Seq<WeightedChoice<GalaxySpecialTrait>>|
        #![trigger is_full_trait_list(all, neighborhood.density, c, s)]
        is_full_trait_list(all, neighborhood.density, c, s)
            && results_of(allowed_traits(c, s, forbidden, all)).contains(x)
}

/// Whether `traits` are special traits the generation can draw for a galaxy of the given
/// neighborhood, category and sub-category: the number of random traits comes from rolls of a
/// fifty-sided die, the age step is applied to an empty list, that many random traits are then
/// added from the traits the galaxy may be given, and the list is cleaned. A trait of the age
/// step is lost only as a trait opposed to one of the traits that could be drawn.
pub open spec fn are_drawn_special_traits(
    neighborhood: GalacticNeighborhood,
    c: GalaxyCategory,
    s: GalaxySubCategory,
    forbidden: Option<Seq<GalaxySpecialTrait>>,
    table: Seq<OppositeTraits>,
    traits: Seq<GalaxySpecialTrait>,
) -> bool {
    exists|rolls: Seq<u8>, all: Seq<WeightedChoice<GalaxySpecialTrait>>, aged: Seq<GalaxySpecialTrait>, drawn: Seq<GalaxySpecialTrait>| {
        &&& are_trait_rolls(rolls)
        &&& is_full_trait_list(all, neighborhood.density, c, s)
        &&& is_age_step(neighborhood, Seq::empty(), aged)
        &&& #[trigger] is_random_traits_outcome(aged, allowed_traits(c, s, forbidden, all), traits_from_rolls(rolls), table, drawn)
        &&& traits == cleaned_traits(drawn)
        &&& forall|x: GalaxySpecialTrait| #[trigger] aged.contains(x) && !traits.contains(x) ==>
            exists|t: GalaxySpecialTrait| results_of(allowed_traits(c, s, forbidden, all)).contains(t)
                && #[trigger] is_opposed(table, t, x)
    }
}

/// Generates the special traits of a galaxy: the fixed ones of the settings if there are some,
/// otherwise the traits its universe's age gives it and a number of random traits drawn from
/// the list of the traits its category and sub-category allow. The list is then cleaned, so that
/// it is never empty.
pub fn generate_special_traits(
    neighborhood: GalacticNeighborhood,
    category: GalaxyCategory,
    sub_category: GalaxySubCategory,
    index: u16,
    seed: &str,
    settings: &GalaxySettings,
    opposite_traits: &Vec<OppositeTraits>,
) -> (r: Vec<GalaxySpecialTrait>)
    ensures
        r.len() >= 1,
        match settings.fixed_special_traits {
            Some(fixed) => r@ == cleaned_traits(fixed@),
            None => {
                &&& distinct_kinds(r@)
                &&& has_kind(r@, 0) ==> r.len() == 1
                &&& forall|x: GalaxySpecialTrait| #[trigger] r@.contains(x) ==> {
                    ||| x == GalaxySpecialTrait::NoPeculiarity
                    ||| x == GalaxySpecialTrait::Younger
                    ||| x == GalaxySpecialTrait::Older
                    ||| x == GalaxySpecialTrait::Dead
                    ||| may_be_drawn(x, neighborhood, category, sub_category, optional_view(settings.forbidden_special_traits))
                }
                &&& are_drawn_special_traits(
                    neighborhood,
                    category,
                    sub_category,
                    optional_view(settings.forbidden_special_traits),
                    opposite_traits@,
                    r@,
                )
            },
        },
{
    let mut special_traits: Vec<GalaxySpecialTrait> = Vec::new();
    match &settings.fixed_special_traits {
        Some(fixed_traits) => {
            special_traits = copy_traits(fixed_traits);
            let ghost before = special_traits@;
            let r = clean_special_traits(&mut special_traits);
            proof {
                lemma_cleaned_traits(before);
            }
            r
        },
        None => {
            let number_of_random_traits = get_number_of_random_traits(index, seed);
            let all_special_traits = get_full_list_of_traits(neighborhood, category, sub_category, index, seed);
            let allowed = remove_forbidden_traits(category, sub_category, settings, &all_special_traits);
            let ghost forbidden = optional_view(settings.forbidden_special_traits);
            proof {
                lemma_full_trait_list_weights(all_special_traits@, neighborhood.density, category, sub_category);
                lemma_allowed_traits(category, sub_category, forbidden, all_special_traits@);
                assert forall|i: int| 0 <= i < allowed@.len() implies 1 <= #[trigger] allowed@[i].weight <= 25 by {
                    assert(allowed@.contains(allowed@[i]));
                    let j = choose|j: int| 0 <= j < all_special_traits@.len() && all_special_traits@[j] == allowed@[i];
                }
                lemma_total_weight_bound(allowed@, 25);
            }
            let aged = add_age_related_traits(neighborhood, &mut special_traits, index, seed);
            let ghost after_age = special_traits@;
            proof {
                assert(distinct_kinds(after_age)) by {
                    assert(trait_kind(GalaxySpecialTrait::Older) != trait_kind(GalaxySpecialTrait::Dead));
                }
                assert forall|x: GalaxySpecialTrait| #[trigger] after_age.contains(x) implies
                    x == GalaxySpecialTrait::Younger || x == GalaxySpecialTrait::Older || x == GalaxySpecialTrait::Dead by {
                    let m = choose|m: int| 0 <= m < after_age.len() && after_age[m] == x;
                }
            }
            let filled = add_random_traits(number_of_random_traits, allowed, &mut special_traits, index, seed, opposite_traits);
            let ghost after_random = special_traits@;
            let r = clean_special_traits(&mut special_traits);
            proof {
                lemma_cleaned_traits(after_random);
                lemma_without_first_of_kind(after_random, 0);
                assert forall|x: GalaxySpecialTrait| #[trigger] r@.contains(x) implies {
                    ||| x == GalaxySpecialTrait::NoPeculiarity
                    ||| x == GalaxySpecialTrait::Younger
                    ||| x == GalaxySpecialTrait::Older
                    ||| x == GalaxySpecialTrait::Dead
                    ||| may_be_drawn(x, neighborhood, category, sub_category, forbidden)
                } by {
                    if after_random.len() >= 1 {
                        assert(after_random.contains(x));
                        if !after_age.contains(x) {
                            assert(results_of(allowed@).contains(x));
                            assert(is_full_trait_list(all_special_traits@, neighborhood.density, category, sub_category));
                        }
                    } else {
                        let m = choose|m: int| 0 <= m < r@.len() && r@[m] == x;
                    }
                }
                let rolls = choose|rolls: Seq<u8>| are_trait_rolls(rolls) && number_of_random_traits == traits_from_rolls(rolls);
                let possible = allowed_traits(category, sub_category, forbidden, all_special_traits@);
                assert forall|x: GalaxySpecialTrait| #[trigger] after_age.contains(x) && !r@.contains(x) implies
                    exists|t: GalaxySpecialTrait| results_of(possible).contains(t)
                        && #[trigger] is_opposed(opposite_traits@, t, x) by {
                    if after_random.contains(x) {
                        lemma_lost_in_without_first_of_kind(after_random, 0, x);
                        assert(x == GalaxySpecialTrait::Younger || x == GalaxySpecialTrait::Older || x == GalaxySpecialTrait::Dead);
                        assert(false);
                    }
                }
                assert(is_random_traits_outcome(after_age, possible, traits_from_rolls(rolls), opposite_traits@, after_random));
            }
            r
        },
    }
}

} // verus!
