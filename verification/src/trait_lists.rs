use vstd::prelude::*;
use crate::dice::{
    WeightedChoice, total_weight, lemma_total_weight_remove, at_most_one_zero_weight,
    lemma_remove_keeps_one_zero_weight, positive_count, lemma_positive_count_remove,
};
use crate::galaxy_types::{GalaxySpecialTrait, trait_kind};

verus! {

/// The kinds of a list of traits, in order.
pub open spec fn kinds_of(ts: Seq<GalaxySpecialTrait>) -> Seq<int> {
    ts.map_values(|t: GalaxySpecialTrait| trait_kind(t))
}

/// The traits of a list of weighted choices, in order.
pub open spec fn results_of(ws: Seq<WeightedChoice<GalaxySpecialTrait>>) -> Seq<GalaxySpecialTrait> {
    ws.map_values(|w: WeightedChoice<GalaxySpecialTrait>| w.result)
}

/// The position of the first occurrence of `k` in `ks`, or -1 if `k` does not occur.
pub open spec fn first_index_of(ks: Seq<int>, k: int) -> int
    decreases ks.len(),
{
    if ks.len() == 0 {
        -1
    } else if ks[0] == k {
        0
    } else {
        let r = first_index_of(ks.drop_first(), k);
        if r < 0 {
            -1
        } else {
            r + 1
        }
    }
}

/// Whether some trait of `ts` is of kind `k`.
pub open spec fn has_kind(ts: Seq<GalaxySpecialTrait>, k: int) -> bool {
    exists|i: int| 0 <= i < ts.len() && trait_kind(#[trigger] ts[i]) == k
}

/// Whether no two traits of `ts` are of the same kind.
pub open spec fn distinct_kinds(ts: Seq<GalaxySpecialTrait>) -> bool {
    forall|i: int, j: int|
        0 <= i < ts.len() && 0 <= j < ts.len() && i != j ==> trait_kind(#[trigger] ts[i])
            != trait_kind(#[trigger] ts[j])
}

/// `ts` without its first trait of kind `k`, or `ts` itself when it has none.
pub open spec fn without_first_of_kind(ts: Seq<GalaxySpecialTrait>, k: int) -> Seq<GalaxySpecialTrait> {
    let i = first_index_of(kinds_of(ts), k);
    if i < 0 {
        ts
    } else {
        ts.remove(i)
    }
}

/// `ws` without its first choice whose trait is of kind `k`, or `ws` itself when it has none.
pub open spec fn choices_without_first_of_kind(
    ws: Seq<WeightedChoice<GalaxySpecialTrait>>,
    k: int,
) -> Seq<WeightedChoice<GalaxySpecialTrait>> {
    let i = first_index_of(kinds_of(results_of(ws)), k);
    if i < 0 {
        ws
    } else {
        ws.remove(i)
    }
}

/// The first occurrence of `k` is where `first_index_of` says, and it is -1 exactly when `k` does
/// not occur.
pub proof fn lemma_first_index_of(ks: Seq<int>, k: int)
    ensures
        first_index_of(ks, k) < 0 <==> (forall|j: int| 0 <= j < ks.len() ==> ks[j] != k),
        first_index_of(ks, k) >= 0 ==> {
            &&& first_index_of(ks, k) < ks.len()
            &&& ks[first_index_of(ks, k)] == k
            &&& forall|j: int| 0 <= j < first_index_of(ks, k) ==> ks[j] != k
        },
        first_index_of(ks, k) >= -1,
    decreases ks.len(),
{
    if ks.len() > 0 && ks[0] != k {
        lemma_first_index_of(ks.drop_first(), k);
        let r = first_index_of(ks.drop_first(), k);
        if r < 0 {
            assert forall|j: int| 0 <= j < ks.len() implies ks[j] != k by {
                if j > 0 {
                    assert(ks.drop_first()[j - 1] == ks[j]);
                }
            }
        } else {
            assert forall|j: int| 0 <= j < r + 1 implies ks[j] != k by {
                if j > 0 {
                    assert(ks.drop_first()[j - 1] == ks[j]);
                }
            }
        }
    }
}

/// If `i` holds `k` and nothing before it does, then `i` is the first occurrence of `k`.
pub proof fn lemma_first_index_is(ks: Seq<int>, k: int, i: int)
    requires
        0 <= i < ks.len(),
        ks[i] == k,
        forall|j: int| 0 <= j < i ==> ks[j] != k,
    ensures
        first_index_of(ks, k) == i,
{
    lemma_first_index_of(ks, k);
    let r = first_index_of(ks, k);
    if r < 0 {
        assert(ks[i] != k);
    } else if r < i {
        assert(ks[r] != k);
    } else if r > i {
        assert(ks[i] != k);
    }
}

/// Removes the first trait of the same kind as `possible_trait` from `traits`, if any.
pub fn remove_specific_trait(traits: &mut Vec<GalaxySpecialTrait>, possible_trait: GalaxySpecialTrait)
    ensures
        final(traits)@ == without_first_of_kind(old(traits)@, trait_kind(possible_trait)),
{
    let k = possible_trait.kind();
    let ghost ks = kinds_of(traits@);
    let mut i: usize = 0;
    while i < traits.len()
        invariant
            0 <= i <= traits.len(),
            traits@ == old(traits)@,
            ks == kinds_of(traits@),
            k == trait_kind(possible_trait),
            forall|j: int| 0 <= j < i ==> ks[j] != k,
        decreases traits.len() - i,
    {
        if traits[i].kind() == k {
            proof {
                lemma_first_index_is(ks, k as int, i as int);
            }
            traits.remove(i);
            return;
        }
        i = i + 1;
    }
    proof {
        lemma_first_index_of(ks, k as int);
    }
}

/// Removes the first choice whose trait is of the same kind as `possible_trait` from
/// `possible_traits`, if any.
pub fn remove_specific_possible_trait(
    possible_traits: &mut Vec<WeightedChoice<GalaxySpecialTrait>>,
    possible_trait: GalaxySpecialTrait,
)
    ensures
        final(possible_traits)@ == choices_without_first_of_kind(
            old(possible_traits)@,
            trait_kind(possible_trait),
        ),
{
    let k = possible_trait.kind();
    let ghost ks = kinds_of(results_of(possible_traits@));
    let mut i: usize = 0;
    while i < possible_traits.len()
        invariant
            0 <= i <= possible_traits.len(),
            possible_traits@ == old(possible_traits)@,
            ks == kinds_of(results_of(possible_traits@)),
            k == trait_kind(possible_trait),
            forall|j: int| 0 <= j < i ==> ks[j] != k,
        decreases possible_traits.len() - i,
    {
        if possible_traits[i].result.kind() == k {
            proof {
                lemma_first_index_is(ks, k as int, i as int);
            }
            possible_traits.remove(i);
            return;
        }
        i = i + 1;
    }
    proof {
        lemma_first_index_of(ks, k as int);
    }
}

/// Whether `traits` holds a trait of the same kind as `t`.
pub fn contains_kind(traits: &Vec<GalaxySpecialTrait>, t: GalaxySpecialTrait) -> (r: bool)
    ensures
        r == has_kind(traits@, trait_kind(t)),
{
    let k = t.kind();
    let mut i: usize = 0;
    while i < traits.len()
        invariant
            0 <= i <= traits.len(),
            k == trait_kind(t),
            forall|j: int| 0 <= j < i ==> trait_kind(#[trigger] traits@[j]) != k,
        decreases traits.len() - i,
    {
        if traits[i].kind() == k {
            return true;
        }
        i = i + 1;
    }
    false
}

/// Removing the first trait of a kind from a list of distinct kinds leaves a list of distinct
/// kinds with no trait of that kind, made of traits of the list it started from.
pub proof fn lemma_without_first_of_kind(ts: Seq<GalaxySpecialTrait>, k: int)
    ensures
        forall|x: GalaxySpecialTrait| #[trigger] without_first_of_kind(ts, k).contains(x) ==> ts.contains(x),
        without_first_of_kind(ts, k).len() <= ts.len(),
        distinct_kinds(ts) ==> distinct_kinds(without_first_of_kind(ts, k)),
        distinct_kinds(ts) ==> !has_kind(without_first_of_kind(ts, k), k),
        !has_kind(ts, k) ==> without_first_of_kind(ts, k) == ts,
{
    let ks = kinds_of(ts);
    lemma_first_index_of(ks, k);
    let i = first_index_of(ks, k);
    let r = without_first_of_kind(ts, k);
    if i >= 0 {
        assert forall|x: GalaxySpecialTrait| #[trigger] r.contains(x) implies ts.contains(x) by {
            let j = choose|j: int| 0 <= j < r.len() && r[j] == x;
            if j < i {
                assert(ts[j] == x);
            } else {
                assert(ts[j + 1] == x);
            }
        }
        if distinct_kinds(ts) {
            assert forall|a: int, b: int|
                0 <= a < r.len() && 0 <= b < r.len() && a != b implies trait_kind(#[trigger] r[a])
                != trait_kind(#[trigger] r[b]) by {
                let a2 = if a < i { a } else { a + 1 };
                let b2 = if b < i { b } else { b + 1 };
                assert(r[a] == ts[a2]);
                assert(r[b] == ts[b2]);
            }
            assert forall|j: int| 0 <= j < r.len() implies trait_kind(#[trigger] r[j]) != k by {
                let j2 = if j < i { j } else { j + 1 };
                assert(r[j] == ts[j2]);
                assert(ks[i] == k);
                assert(trait_kind(ts[i]) == k);
            }
        }
    } else {
        if has_kind(ts, k) {
            let j = choose|j: int| 0 <= j < ts.len() && trait_kind(#[trigger] ts[j]) == k;
            assert(ks[j] == k);
        }
    }
}

/// A trait of `ts` that is not left once the first trait of kind `k` is removed is of kind `k`.
pub proof fn lemma_lost_in_without_first_of_kind(ts: Seq<GalaxySpecialTrait>, k: int, x: GalaxySpecialTrait)
    requires
        ts.contains(x),
        !without_first_of_kind(ts, k).contains(x),
    ensures
        trait_kind(x) == k,
{
    let ks = kinds_of(ts);
    lemma_first_index_of(ks, k);
    let i = first_index_of(ks, k);
    let j = choose|j: int| 0 <= j < ts.len() && ts[j] == x;
    if i >= 0 {
        if j < i {
            assert(ts.remove(i)[j] == x);
        } else if j > i {
            assert(ts.remove(i)[j - 1] == x);
        } else {
            assert(ks[i] == k);
        }
    }
}

/// Removing the first choice of a kind keeps the other choices, and takes away only weight.
pub proof fn lemma_choices_without_first_of_kind(ws: Seq<WeightedChoice<GalaxySpecialTrait>>, k: int)
    ensures
        forall|x: WeightedChoice<GalaxySpecialTrait>| #[trigger] choices_without_first_of_kind(ws, k).contains(x) ==> ws.contains(x),
        choices_without_first_of_kind(ws, k).len() <= ws.len(),
        total_weight(choices_without_first_of_kind(ws, k)) <= total_weight(ws),
{
    let ks = kinds_of(results_of(ws));
    lemma_first_index_of(ks, k);
    let i = first_index_of(ks, k);
    let r = choices_without_first_of_kind(ws, k);
    if i >= 0 {
        lemma_total_weight_remove(ws, i);
        assert forall|x: WeightedChoice<GalaxySpecialTrait>| #[trigger] r.contains(x) implies ws.contains(x) by {
            let j = choose|j: int| 0 <= j < r.len() && r[j] == x;
            if j < i {
                assert(ws[j] == x);
            } else {
                assert(ws[j + 1] == x);
            }
        }
    }
}

/// The traits of the choices left once the first choice of kind `k` is removed are the traits
/// of the choices without their first trait of kind `k`; one choice goes when a choice has that
/// kind, at most one choice of weight zero stays at most one, and at most one choice of weight
/// above zero goes.
pub proof fn lemma_choices_without_first_of_kind_results(ws: Seq<WeightedChoice<GalaxySpecialTrait>>, k: int)
    ensures
        results_of(choices_without_first_of_kind(ws, k)) == without_first_of_kind(results_of(ws), k),
        has_kind(results_of(ws), k) ==> choices_without_first_of_kind(ws, k).len() == ws.len() - 1,
        at_most_one_zero_weight(ws) ==> at_most_one_zero_weight(choices_without_first_of_kind(ws, k)),
        positive_count(choices_without_first_of_kind(ws, k)) + 1 >= positive_count(ws),
{
    let ks = kinds_of(results_of(ws));
    lemma_first_index_of(ks, k);
    let i = first_index_of(ks, k);
    if i >= 0 {
        assert(results_of(ws.remove(i)) =~= results_of(ws).remove(i));
        if at_most_one_zero_weight(ws) {
            lemma_remove_keeps_one_zero_weight(ws, i);
        }
        lemma_positive_count_remove(ws, i);
    } else if has_kind(results_of(ws), k) {
        let j = choose|j: int| 0 <= j < results_of(ws).len() && trait_kind(#[trigger] results_of(ws)[j]) == k;
        assert(ks[j] == k);
    }
}

/// A copy of a list of traits.
pub fn copy_traits(traits: &Vec<GalaxySpecialTrait>) -> (r: Vec<GalaxySpecialTrait>)
    ensures
        r@ == traits@,
{
    let mut r: Vec<GalaxySpecialTrait> = Vec::new();
    let mut i: usize = 0;
    while i < traits.len()
        invariant
            0 <= i <= traits.len(),
            r@ == traits@.take(i as int),
        decreases traits.len() - i,
    {
        r.push(traits[i]);
        i = i + 1;
        assert(r@ =~= traits@.take(i as int));
    }
    assert(traits@.take(traits.len() as int) =~= traits@);
    r
}

} // verus!
