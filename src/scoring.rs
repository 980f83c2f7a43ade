use vstd::prelude::*;
use crate::player::{Player, in_scale};
use crate::role::{AttributeWeights, FULL_WEIGHT, valid_entries};

verus! {

/// The top of the attribute scale.
pub const TOP_RATING: u64 = 20;

/// A percentage counted in hundredths: 10000 stands for 100%.
pub const FULL_PERCENTAGE: u32 = 10000;

/// The points that a rating brings: its value, or 0 when unrated.
pub open spec fn rating_points(v: Option<i32>) -> int {
    match v {
        Some(x) => x as int,
        None => 0,
    }
}

/// The sum, over the weighted attributes, of weight times the player's rating;
/// an unrated attribute brings nothing.
pub open spec fn raw_score(s: Seq<(Seq<char>, u32)>, p: Player) -> int
    decreases s.len(),
{
    if s.len() == 0 {
        0
    } else {
        raw_score(s.drop_last(), p) + s.last().1 * rating_points(p.rating(s.last().0))
    }
}

/// The raw score of a player rated at the top of the scale in every weighted attribute.
pub open spec fn max_score(s: Seq<(Seq<char>, u32)>) -> int
    decreases s.len(),
{
    if s.len() == 0 {
        0
    } else {
        max_score(s.drop_last()) + s.last().1 * TOP_RATING
    }
}

/// `raw` as a share of `max` in hundredths of a percent, rounded half up and
/// capped at 100%; 0 when `max` is 0.
pub open spec fn percentage_of(raw: int, max: int) -> int {
    if max > 0 {
        let p = (2 * FULL_PERCENTAGE * raw + max) / (2 * max);
        if p > FULL_PERCENTAGE { FULL_PERCENTAGE as int } else { p }
    } else {
        0
    }
}

/// Normalises a raw score against the maximum score.
pub fn percentage(raw: u64, max: u64) -> (r: u32)
    ensures
        r == percentage_of(raw as int, max as int),
{
    if max > 0 {
        let num: u128 = 20000 * (raw as u128) + (max as u128);
        let den: u128 = 2 * (max as u128);
        let p: u128 = num / den;
        if p > FULL_PERCENTAGE as u128 {
            FULL_PERCENTAGE
        } else {
            p as u32
        }
    } else {
        0
    }
}

proof fn lemma_term_bounds(w: u32, v: Option<i32>)
    requires
        w <= FULL_WEIGHT,
        in_scale(v),
    ensures
        0 <= w * rating_points(v) <= 20000,
{
    let x = rating_points(v);
    assert(0 <= x <= 20);
    assert(0 <= w * x <= 20000) by (nonlinear_arith)
        requires
            0 <= x <= 20,
            0 <= w <= 1000,
    ;
}

/// The maximum score of the weights.
pub fn max_score_of(weights: &AttributeWeights) -> (r: u64)
    ensures
        r == max_score(weights@),
{
    let n = weights.len();
    let mut max: u64 = 0;
    let mut i: usize = 0;
    while i < n
        invariant
            n == weights@.len(),
            valid_entries(weights@),
            i <= n,
            max == max_score(weights@.take(i as int)),
            max <= 20000 * i,
        decreases n - i,
    {
        let (_, w) = weights.entry(i);
        proof {
            let s = weights@.take(i as int + 1);
            assert(s.drop_last() =~= weights@.take(i as int));
            assert(s.last() == weights@[i as int]);
            assert(w <= FULL_WEIGHT);
            assert(w * 20 <= 20000) by (nonlinear_arith)
                requires
                    w <= 1000,
            ;
            assert(i + 1 <= u32::MAX);
        }
        max = max + (w as u64) * TOP_RATING;
        i = i + 1;
    }
    assert(weights@.take(n as int) =~= weights@);
    max
}

/// How well the player fits the weights: the raw score and its percentage of
/// the maximum score.
pub fn score(weights: &AttributeWeights, player: &Player) -> (r: (u64, u32))
    requires
        player.wf(),
    ensures
        r.0 == raw_score(weights@, *player),
        r.1 == percentage_of(raw_score(weights@, *player), max_score(weights@)),
{
    let n = weights.len();
    let mut raw: u64 = 0;
    let mut i: usize = 0;
    while i < n
        invariant
            n == weights@.len(),
            valid_entries(weights@),
            player.wf(),
            i <= n,
            raw == raw_score(weights@.take(i as int), *player),
            raw <= 20000 * i,
        decreases n - i,
    {
        let (name, w) = weights.entry(i);
        let v = player.attribute(name);
        proof {
            let s = weights@.take(i as int + 1);
            assert(s.drop_last() =~= weights@.take(i as int));
            assert(s.last() == weights@[i as int]);
            assert(w <= FULL_WEIGHT);
            assert(in_scale(v));
            lemma_term_bounds(w, v);
            assert(i + 1 <= u32::MAX);
        }
        let points: u64 = match v {
            Some(x) => x as u64,
            None => 0,
        };
        raw = raw + (w as u64) * points;
        i = i + 1;
    }
    assert(weights@.take(n as int) =~= weights@);
    let max = max_score_of(weights);
    (raw, percentage(raw, max))
}

} // verus!
