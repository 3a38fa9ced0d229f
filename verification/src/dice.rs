use vstd::prelude::*;
use seeded_dice_roller::{CopyableRollToProcess, CopyableWeightedResult, RollMethod, SeededDiceRoller};

verus! {

#[verifier::external_type_specification]
#[verifier::external_body]
pub struct ExSeededDiceRoller(SeededDiceRoller);

/// A possible result of a random pick, with the weight that makes it more or less likely.
#[derive(Copy, Clone, Debug)]
pub struct WeightedChoice<T> {
    /// The result that can be picked.
    pub result: T,
    /// How many chances this result has to be picked, against the sum of all weights.
    pub weight: u32,
}

impl<T> WeightedChoice<T> {
    /// Creates a new [WeightedChoice].
    pub fn new(result: T, weight: u32) -> (r: Self)
        ensures
            r.result == result,
            r.weight == weight,
    {
        WeightedChoice { result, weight }
    }
}

/// The sum of the weights of a list of choices.
pub open spec fn total_weight<T>(choices: Seq<WeightedChoice<T>>) -> nat
    decreases choices.len(),
{
    if choices.len() == 0 {
        0
    } else {
        total_weight(choices.drop_last()) + choices.last().weight as nat
    }
}

/// Removing a choice takes its weight away from the total.
pub proof fn lemma_total_weight_remove<T>(choices: Seq<WeightedChoice<T>>, i: int)
    requires
        0 <= i < choices.len(),
    ensures
        total_weight(choices.remove(i)) + choices[i].weight == total_weight(choices),
    decreases choices.len(),
{
    if i < choices.len() - 1 {
        let rest = choices.drop_last();
        lemma_total_weight_remove(rest, i);
        assert(choices.remove(i).drop_last() =~= rest.remove(i));
        assert(choices.remove(i).last() == choices.last());
    } else {
        assert(choices.remove(i) =~= choices.drop_last());
    }
}

/// A list whose weights are all at most `m` weighs at most `m` times its length.
pub proof fn lemma_total_weight_bound<T>(choices: Seq<WeightedChoice<T>>, m: nat)
    requires
        forall|i: int| 0 <= i < choices.len() ==> #[trigger] choices[i].weight <= m,
    ensures
        total_weight(choices) <= choices.len() * m,
    decreases choices.len(),
{
    if choices.len() > 0 {
        let rest = choices.drop_last();
        assert forall|i: int| 0 <= i < rest.len() implies #[trigger] rest[i].weight <= m by {
            assert(rest[i] == choices[i]);
        }
        lemma_total_weight_bound(rest, m);
        assert(choices.len() * m == rest.len() * m + m) by (nonlinear_arith)
            requires
                choices.len() == rest.len() + 1,
        ;
    }
}

/// Whether at most one of `choices` has a weight of zero.
pub open spec fn at_most_one_zero_weight<T>(choices: Seq<WeightedChoice<T>>) -> bool {
    forall|i: int, j: int|
        0 <= i < choices.len() && 0 <= j < choices.len() && i != j ==> #[trigger] choices[i].weight > 0
            || #[trigger] choices[j].weight > 0
}

/// Two or more choices of which at most one weighs nothing have a total weight above zero.
pub proof fn lemma_total_weight_positive<T>(choices: Seq<WeightedChoice<T>>)
    requires
        choices.len() >= 2,
        at_most_one_zero_weight(choices),
    ensures
        total_weight(choices) > 0,
{
    assert(choices[0].weight > 0 || choices[1].weight > 0);
    if choices[0].weight > 0 {
        lemma_total_weight_remove(choices, 0);
    } else {
        lemma_total_weight_remove(choices, 1);
    }
}

/// How many of `choices` have a weight above zero.
pub open spec fn positive_count<T>(choices: Seq<WeightedChoice<T>>) -> nat
    decreases choices.len(),
{
    if choices.len() == 0 {
        0
    } else {
        positive_count(choices.drop_last()) + (if choices.last().weight > 0 { 1nat } else { 0nat })
    }
}

/// Removing a choice takes it away from the count of choices of weight above zero.
pub proof fn lemma_positive_count_remove<T>(choices: Seq<WeightedChoice<T>>, i: int)
    requires
        0 <= i < choices.len(),
    ensures
        positive_count(choices.remove(i)) + (if choices[i].weight > 0 { 1nat } else { 0nat }) == positive_count(choices),
    decreases choices.len(),
{
    if i < choices.len() - 1 {
        let rest = choices.drop_last();
        lemma_positive_count_remove(rest, i);
        assert(choices.remove(i).drop_last() =~= rest.remove(i));
        assert(choices.remove(i).last() == choices.last());
    } else {
        assert(choices.remove(i) =~= choices.drop_last());
    }
}

/// Choices of which one weighs something have a total weight above zero.
pub proof fn lemma_positive_count_total<T>(choices: Seq<WeightedChoice<T>>)
    requires
        positive_count(choices) > 0,
    ensures
        total_weight(choices) > 0,
    decreases choices.len(),
{
    if choices.len() > 0 && choices.last().weight == 0 {
        lemma_positive_count_total(choices.drop_last());
    }
}

/// Removing a choice keeps at most one choice of weight zero.
pub proof fn lemma_remove_keeps_one_zero_weight<T>(choices: Seq<WeightedChoice<T>>, i: int)
    requires
        0 <= i < choices.len(),
        at_most_one_zero_weight(choices),
    ensures
        at_most_one_zero_weight(choices.remove(i)),
{
    let r = choices.remove(i);
    assert forall|a: int, b: int| 0 <= a < r.len() && 0 <= b < r.len() && a != b implies #[trigger] r[a].weight > 0
        || #[trigger] r[b].weight > 0 by {
        let a2 = if a < i { a } else { a + 1 };
        let b2 = if b < i { b } else { b + 1 };
        assert(r[a] == choices[a2]);
        assert(r[b] == choices[b2]);
    }
}

/// Whether `r` is the result of one of the `choices` whose weight is not zero.
pub open spec fn is_weighted_pick<T>(choices: Seq<WeightedChoice<T>>, r: T) -> bool {
    exists|i: int| 0 <= i < choices.len() && choices[i].weight > 0 && #[trigger] choices[i].result == r
}

/// Whether `r` is a possible outcome of picking one of `choices` at random: nothing from an empty
/// list, the single choice of a one-element list, and otherwise a choice of non-zero weight.
pub open spec fn is_possible_pick<T>(choices: Seq<WeightedChoice<T>>, r: Option<T>) -> bool {
    if choices.len() == 0 {
        r is None
    } else if choices.len() == 1 {
        r == Some(choices[0].result)
    } else {
        r matches Some(v) && is_weighted_pick(choices, v)
    }
}

/// Whether the weights of `choices` can be summed by the dice roller: a list of two or more
/// choices needs a total weight above zero that fits in a `u32`.
pub open spec fn valid_weights<T>(choices: Seq<WeightedChoice<T>>) -> bool {
    choices.len() >= 2 ==> 0 < total_weight(choices) <= u32::MAX
}

/// Creates a dice roller with `SeededDiceRoller::new(seed, step)`. The roller it gives is
/// determined by the two strings, but nothing is stated of the numbers it will draw.
#[verifier::external_body]
pub(crate) fn new_roller(seed: &str, step: &str) -> SeededDiceRoller {
    SeededDiceRoller::new(seed, step)
}

/// Rolls `dice` dice of `die_type` faces and adds `modifier`, with `SeededDiceRoller::roll`.
/// Each die gives a value from 1 to `die_type`, so the result lies between `dice + modifier`
/// and `dice * die_type + modifier`. Which value comes out depends on the roller's state and is
/// not stated. A roll of one or more dice with no face would divide by zero, so it is excluded.
#[verifier::external_body]
pub(crate) fn roll_dice(rng: &mut SeededDiceRoller, dice: u16, die_type: u32, modifier: i32) -> (r: i64)
    requires
        dice == 0 || die_type > 0,
    ensures
        dice + modifier <= r <= dice * die_type + modifier,
{
    rng.roll(dice, die_type, modifier)
}

/// Picks one of `choices` at random with `SeededDiceRoller::get_result` and a simple weighted
/// roll. An empty list gives nothing, a single choice is returned as it is, and otherwise one of
/// the choices of non-zero weight is returned; which one depends on the roller's state and is not
/// stated. The roll sums the weights in a `u32` and rolls a die of that many faces, so two or
/// more choices need a total weight above zero that fits in a `u32`.
#[verifier::external_body]
pub(crate) fn pick_weighted<T: Copy>(rng: &mut SeededDiceRoller, choices: &Vec<WeightedChoice<T>>) -> (r:
    Option<T>)
    requires
        valid_weights(choices@),
    ensures
        is_possible_pick(choices@, r),
{
    let to_process = CopyableRollToProcess {
        possible_results: choices.iter().map(
            |c| CopyableWeightedResult { result: c.result, weight: c.weight },
        ).collect(),
        roll_method: RollMethod::SimpleRoll,
    };
    rng.get_result(&to_process)
}

} // verus!
