//! Layer 7 decisions: how breaks of the last swing high or swing low change
//! the market-structure bias, and the structure engine's look-back window.

use vstd::prelude::*;

verus! {

/// What one bar's breaks did to the market structure.
#[derive(Debug, Clone, Copy, PartialEq, Eq, Structural)]
pub struct BreakOutcome {
    /// A break in the direction of the prevailing bias (break of structure).
    pub bos: bool,
    /// A break against the prevailing bias (change of character).
    pub choch: bool,
    /// Direction of the change of character (`0` when none).
    pub choch_dir: i8,
    /// The bias after the bar: `1` after a high break, `-1` after a low
    /// break (a low break is applied after a high break on the same bar).
    pub bias: i8,
    /// Direction of the Fibonacci leg the bar anchors (`0` when none).
    pub fib_dir: i8,
}

/// The effect of breaking the swing high (`up`) or low on `bias`.
pub open spec fn apply_break(bias: i8, up: bool) -> BreakOutcome {
    if up {
        if bias <= 0 {
            BreakOutcome { bos: false, choch: true, choch_dir: 1i8, bias: 1i8, fib_dir: 1i8 }
        } else {
            BreakOutcome { bos: true, choch: false, choch_dir: 0i8, bias: 1i8, fib_dir: 1i8 }
        }
    } else {
        if bias >= 0 {
            BreakOutcome { bos: false, choch: true, choch_dir: -1i8, bias: -1i8, fib_dir: -1i8 }
        } else {
            BreakOutcome { bos: true, choch: false, choch_dir: 0i8, bias: -1i8, fib_dir: -1i8 }
        }
    }
}

/// The outcome of a bar that broke the swing high and/or the swing low:
/// the high break is applied first, then the low break on the resulting
/// bias; flags of the later break overwrite those of the earlier one only
/// where the later break sets them.
pub open spec fn bar_outcome(bias: i8, fib_dir: i8, broke_high: bool, broke_low: bool) -> BreakOutcome {
    let none = BreakOutcome { bos: false, choch: false, choch_dir: 0i8, bias, fib_dir };
    let after_high = if broke_high {
        apply_break(bias, true)
    } else {
        none
    };
    if broke_low {
        let low = apply_break(after_high.bias, false);
        BreakOutcome {
            bos: after_high.bos || low.bos,
            choch: after_high.choch || low.choch,
            choch_dir: if low.choch {
                -1i8
            } else {
                after_high.choch_dir
            },
            bias: -1i8,
            fib_dir: -1i8,
        }
    } else {
        after_high
    }
}

/// Applies one bar's swing breaks to the structure state `(bias, fib_dir)`.
pub fn structure_break(bias: i8, fib_dir: i8, broke_high: bool, broke_low: bool) -> (r: BreakOutcome)
    ensures
        r == bar_outcome(bias, fib_dir, broke_high, broke_low),
{
    let mut out = BreakOutcome { bos: false, choch: false, choch_dir: 0, bias, fib_dir };
    if broke_high {
        if out.bias <= 0 {
            out.choch = true;
            out.choch_dir = 1;
        } else {
            out.bos = true;
        }
        out.fib_dir = 1;
        out.bias = 1;
    }
    if broke_low {
        if out.bias >= 0 {
            out.choch = true;
            out.choch_dir = -1;
        } else {
            out.bos = true;
        }
        out.fib_dir = -1;
        out.bias = -1;
    }
    out
}

/// A single break never reports both a break of structure and a change of
/// character; a change of character is exactly a break against (or without)
/// a prevailing bias, and afterwards the bias points in the break's
/// direction.
pub proof fn lemma_single_break_classification(bias: i8, fib_dir: i8, up: bool)
    ensures
        ({
            let o = bar_outcome(bias, fib_dir, up, !up);
            &&& !(o.bos && o.choch)
            &&& o.choch == (if up {
                bias <= 0
            } else {
                bias >= 0
            })
            &&& o.bias == (if up {
                1i8
            } else {
                -1i8
            })
            &&& o.fib_dir == o.bias
        }),
{
}

/// A bar without breaks leaves the bias and the Fibonacci direction as they
/// were and reports no event.
pub proof fn lemma_quiet_bar_keeps_state(bias: i8, fib_dir: i8)
    ensures
        bar_outcome(bias, fib_dir, false, false) == (BreakOutcome {
            bos: false,
            choch: false,
            choch_dir: 0i8,
            bias,
            fib_dir,
        }),
{
}

/// A change of character points the way the market turned: whenever a bar
/// reports one, its direction is the bias the bar leaves (up after a high
/// break, down after a low break), and a bar without one reports direction 0.
/// A single break leaves the bias, the change-of-character direction (when
/// there is one) and the Fibonacci direction all pointing the break's way.
pub proof fn lemma_change_of_character_direction(
    bias: i8,
    fib_dir: i8,
    broke_high: bool,
    broke_low: bool,
)
    ensures
        ({
            let o = bar_outcome(bias, fib_dir, broke_high, broke_low);
            &&& o.choch ==> o.choch_dir == o.bias
            &&& !o.choch ==> o.choch_dir == 0
            &&& broke_high && !broke_low ==> o.bias == 1 && o.fib_dir == 1 && (o.choch
                ==> o.choch_dir == 1)
            &&& broke_low ==> o.bias == -1 && o.fib_dir == -1 && (o.choch ==> o.choch_dir == -1)
            &&& o.bos ==> (broke_high && !broke_low && bias > 0) || (broke_low && (broke_high
                || bias < 0))
        }),
{
}

/// Bars of history the structure engine keeps (and so the bars it needs):
/// `4 * swing_len + 10`.
pub fn structure_window(swing_len: usize) -> (r: usize)
    requires
        4 * swing_len + 10 <= usize::MAX,
    ensures
        r == 4 * swing_len + 10,
{
    swing_len * 4 + 10
}

} // verus!
