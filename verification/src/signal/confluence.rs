//! Layer 6 scoring rule: the confluence score counts the conditions that
//! hold, in half points.

use vstd::prelude::*;

verus! {

pub open spec fn count_holding(c: Seq<bool>) -> nat
    decreases c.len(),
{
    if c.len() == 0 {
        0
    } else {
        count_holding(c.drop_last()) + if c.last() {
            1nat
        } else {
            0nat
        }
    }
}

/// A side's confluence score in half points: two for each of the seven main
/// conditions that holds (trend EMAs, RSI band, MACD histogram and line,
/// volume surge, ADX with directional dominance) and one when price is on
/// that side of the fast EMA. Maximum 15 (7.5 points).
pub open spec fn score_halves(conditions: Seq<bool>, near_side: bool) -> nat {
    2 * count_holding(conditions) + if near_side {
        1nat
    } else {
        0nat
    }
}

proof fn lemma_count_holding_update(c: Seq<bool>, k: int)
    requires
        0 <= k < c.len(),
    ensures
        count_holding(c.update(k, true)) == count_holding(c.update(k, false)) + 1,
    decreases c.len(),
{
    let t = c.update(k, true);
    let f = c.update(k, false);
    if k == c.len() - 1 {
        assert(t.drop_last() =~= c.drop_last());
        assert(f.drop_last() =~= c.drop_last());
    } else {
        assert(t.drop_last() =~= c.drop_last().update(k, true));
        assert(f.drop_last() =~= c.drop_last().update(k, false));
        lemma_count_holding_update(c.drop_last(), k);
    }
}

proof fn lemma_count_holding_none(c: Seq<bool>)
    requires
        forall|i: int| 0 <= i < c.len() ==> !c[i],
    ensures
        count_holding(c) == 0,
    decreases c.len(),
{
    if c.len() > 0 {
        lemma_count_holding_none(c.drop_last());
    }
}

/// How the score is built: with no condition holding and price not on the
/// side of the fast EMA it is 0; each of the seven conditions adds two half
/// points (a full point) on its own, whatever the others are; and price on
/// the side of the fast EMA adds one half point.
pub proof fn lemma_score_contributions(c: Seq<bool>, near_side: bool, k: int)
    requires
        c.len() == 7,
        0 <= k < 7,
    ensures
        score_halves(c.update(k, true), near_side) == score_halves(c.update(k, false), near_side)
            + 2,
        score_halves(c, true) == score_halves(c, false) + 1,
        (forall|i: int| 0 <= i < 7 ==> !c[i]) ==> score_halves(c, false) == 0,
{
    lemma_count_holding_update(c, k);
    if forall|i: int| 0 <= i < 7 ==> !c[i] {
        lemma_count_holding_none(c);
    }
}

/// The confluence score of one side, in half points.
pub fn confluence_score_halves(conditions: &[bool; 7], near_side: bool) -> (r: u32)
    ensures
        r == score_halves(conditions@, near_side),
        r <= 15,
{
    let mut n: u32 = 0;
    let mut i: usize = 0;
    while i < 7
        invariant
            i <= 7,
            n <= i,
            n == count_holding(conditions@.subrange(0, i as int)),
        decreases 7 - i,
    {
        assert(conditions@.subrange(0, i + 1).drop_last() =~= conditions@.subrange(0, i as int));
        if conditions[i] {
            n += 1;
        }
        i += 1;
    }
    assert(conditions@.subrange(0, 7) =~= conditions@);
    2 * n + if near_side {
        1
    } else {
        0
    }
}

/// The grade of a score given in half points: A+ from 8 points, A from 6.5,
/// B from 5, C below.
pub fn grade_halves(halves: u32) -> (r: &'static str)
    ensures
        r@ == if halves >= 16 {
            "A+"@
        } else if halves >= 13 {
            "A"@
        } else if halves >= 10 {
            "B"@
        } else {
            "C"@
        },
{
    if halves >= 16 {
        "A+"
    } else if halves >= 13 {
        "A"
    } else if halves >= 10 {
        "B"
    } else {
        "C"
    }
}

} // verus!
