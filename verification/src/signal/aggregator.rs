//! Signal aggregation: the per-layer votes are combined into one signal
//! according to the configured mode, and a streak filter confirms a signal
//! only after it has persisted for a number of consecutive bars.

use vstd::prelude::*;

use crate::text::str_eq;

verus! {

// ── Streak confirmation ───────────────────────────────────────────────────────

/// One step of the streak filter on its `(direction, count)` state: a nonzero
/// signal equal to the current direction extends the streak; any other signal
/// starts a new one (of length 1, or 0 for a neutral signal).
pub open spec fn streak_step(state: (i32, nat), signal: i32) -> (i32, nat) {
    if signal != 0 && signal == state.0 {
        (state.0, state.1 + 1)
    } else {
        (signal, if signal != 0 { 1 } else { 0 })
    }
}

/// The `(direction, count)` state after feeding `h` to a fresh filter.
pub open spec fn streak_after(h: Seq<i32>) -> (i32, nat)
    decreases h.len(),
{
    if h.len() == 0 {
        (0, 0)
    } else {
        streak_step(streak_after(h.drop_last()), h.last())
    }
}

/// Length of the run of equal nonzero signals that ends `h` (0 when `h` is
/// empty or ends with a neutral signal).
pub open spec fn trailing_run(h: Seq<i32>) -> nat
    decreases h.len(),
{
    if h.len() == 0 || h.last() == 0 {
        0
    } else if h.len() >= 2 && h[h.len() - 2] == h.last() {
        trailing_run(h.drop_last()) + 1
    } else {
        1
    }
}

/// The last signal of `h`, or 0 when `h` is empty.
pub open spec fn last_signal(h: Seq<i32>) -> i32 {
    if h.len() == 0 {
        0
    } else {
        h.last()
    }
}

/// Confirmation filter: a signal must agree for `required` consecutive bars.
pub struct SignalStreak {
    required: usize,
    direction: i32,
    count: usize,
}

impl SignalStreak {
    /// The filter's `(direction, count)` state.
    pub closed spec fn state(&self) -> (i32, nat) {
        (self.direction, self.count as nat)
    }

    /// The number of consecutive agreeing bars that confirms a signal.
    pub closed spec fn needed(&self) -> nat {
        self.required as nat
    }

    /// A filter that needs `required` consecutive agreeing bars.
    pub fn new(required: usize) -> (r: Self)
        ensures
            r.state() == (0i32, 0nat),
            r.needed() == required,
    {
        SignalStreak { required, direction: 0, count: 0 }
    }

    /// Feeds a raw signal (`+1`, `-1` or `0`). Returns `true` when the
    /// streak has reached `required` bars and the signal is non-zero.
    pub fn update(&mut self, signal: i32) -> (r: bool)
        requires
            !(signal != 0 && signal == old(self).state().0 && old(self).state().1 == usize::MAX),
        ensures
            final(self).state() == streak_step(old(self).state(), signal),
            final(self).needed() == old(self).needed(),
            r == (signal != 0 && final(self).state().1 >= final(self).needed()),
    {
        if signal != 0 && signal == self.direction {
            self.count += 1;
        } else {
            self.direction = signal;
            self.count = if signal != 0 { 1 } else { 0 };
        }
        self.count >= self.required && signal != 0
    }

    /// Forgets the current streak.
    pub fn reset(&mut self)
        ensures
            final(self).state() == (0i32, 0nat),
            final(self).needed() == old(self).needed(),
    {
        self.direction = 0;
        self.count = 0;
    }

    /// The direction of the current streak (0 when none).
    pub fn current_direction(&self) -> (r: i32)
        ensures
            r == self.state().0,
    {
        self.direction
    }

    /// The length of the current streak.
    pub fn current_count(&self) -> (r: usize)
        ensures
            r == self.state().1,
    {
        self.count
    }
}

/// After any sequence of signals, the filter's direction is the last signal
/// and its count is the length of the run of equal nonzero signals that ends
/// the sequence.
pub proof fn lemma_streak_tracks_trailing_run(h: Seq<i32>)
    ensures
        streak_after(h) == (last_signal(h), trailing_run(h)),
    decreases h.len(),
{
    if h.len() > 0 {
        lemma_streak_tracks_trailing_run(h.drop_last());
        let p = h.drop_last();
        if p.len() > 0 {
            assert(p.last() == h[h.len() - 2]);
        }
    }
}

/// The run ending `h` is at least `m` long exactly when the last `m` signals
/// all equal the (nonzero) last signal.
pub proof fn lemma_trailing_run_at_least(h: Seq<i32>, m: nat)
    requires
        h.len() > 0,
        h.last() != 0,
        1 <= m <= h.len(),
    ensures
        trailing_run(h) >= m <==> (forall|k: int|
            h.len() - m <= k < h.len() ==> #[trigger] h[k] == h.last()),
    decreases h.len(),
{
    let n = h.len() as int;
    if m == 1 {
        assert(trailing_run(h) >= 1);
    } else {
        let p = h.drop_last();
        if h[n - 2] == h.last() {
            lemma_trailing_run_at_least(p, (m - 1) as nat);
            assert(p.last() == h.last());
            if trailing_run(h) >= m {
                assert forall|k: int| n - m <= k < n implies #[trigger] h[k] == h.last() by {
                    if k < n - 1 {
                        assert(p[k] == h[k]);
                    }
                }
            }
            if forall|k: int| n - m <= k < n ==> #[trigger] h[k] == h.last() {
                assert forall|k: int| p.len() - (m - 1) <= k < p.len() implies #[trigger] p[k]
                    == p.last() by {
                    assert(h[k] == h.last());
                }
            }
        } else {
            assert(trailing_run(h) == 1);
            assert(h[n - 2] != h.last());
        }
    }
}

/// The filter confirms the last signal of `h` exactly when it is nonzero and
/// the last `required` signals of `h` all equal it.
pub proof fn lemma_streak_fires_iff_agreeing_bars(required: nat, h: Seq<i32>)
    requires
        h.len() > 0,
        required >= 1,
    ensures
        (h.last() != 0 && streak_after(h).1 >= required) <==> (h.last() != 0 && required
            <= h.len() && forall|k: int|
            h.len() - required <= k < h.len() ==> #[trigger] h[k] == h.last()),
{
    lemma_streak_tracks_trailing_run(h);
    if h.last() != 0 {
        if required <= h.len() {
            lemma_trailing_run_at_least(h, required);
        } else {
            lemma_trailing_run_bounded(h);
        }
    }
}

proof fn lemma_trailing_run_bounded(h: Seq<i32>)
    ensures
        trailing_run(h) <= h.len(),
    decreases h.len(),
{
    if h.len() > 0 {
        lemma_trailing_run_bounded(h.drop_last());
    }
}

impl SignalStreak {
    /// Feeds a raw signal and returns it if the filter confirms it, `0`
    /// otherwise.
    pub fn confirm(&mut self, raw: i32) -> (r: i32)
        requires
            !(raw != 0 && raw == old(self).state().0 && old(self).state().1 == usize::MAX),
        ensures
            final(self).state() == streak_step(old(self).state(), raw),
            final(self).needed() == old(self).needed(),
            r == if raw != 0 && final(self).state().1 >= final(self).needed() {
                raw
            } else {
                0
            },
    {
        if self.update(raw) {
            raw
        } else {
            0
        }
    }
}

// ── Vote combination ──────────────────────────────────────────────────────────

/// How the per-layer votes are combined.
#[derive(Debug, Clone, Copy, PartialEq, Eq, Structural)]
pub enum SignalMode {
    /// All core and extended layers must align (the CVD may be neutral; the
    /// Hurst vote must show a trending market on either side).
    Strict,
    /// Core layers must agree and at least two extended layers confirm.
    Majority,
    /// Core layers only.
    Any,
}

/// The mode a `signal_mode` setting names: `"strict"`, `"majority"`, and
/// anything else meaning core layers only.
pub open spec fn mode_for_name(name: Seq<char>) -> SignalMode {
    if name == "strict"@ {
        SignalMode::Strict
    } else if name == "majority"@ {
        SignalMode::Majority
    } else {
        SignalMode::Any
    }
}

impl SignalMode {
    /// The mode named by a `signal_mode` setting.
    pub fn from_name(name: &str) -> (r: SignalMode)
        ensures
            r == mode_for_name(name@),
    {
        if str_eq(name, "strict") {
            SignalMode::Strict
        } else if str_eq(name, "majority") {
            SignalMode::Majority
        } else {
            SignalMode::Any
        }
    }
}

/// The votes of the eleven layers for one bar (`+1` bull, `-1` bear, `0`
/// neutral), with the Fibonacci-zone gates and the oscillator-percentile
/// gates.
#[derive(Debug, Clone, Copy, PartialEq, Eq, Structural)]
pub struct LayerVotes {
    /// L1: close against VWAP.
    pub vwap: i8,
    /// L2: close against the EMA.
    pub ema: i8,
    /// L3: SuperTrend direction, `-1` meaning bullish.
    pub supertrend: i8,
    /// L4: trend speed.
    pub trend_speed: i8,
    /// L5: liquidity imbalance.
    pub liquidity: i8,
    /// L6: bull confluence score against its threshold (`+1` when met).
    pub conf_bull: i8,
    /// L6: bear confluence score against its threshold (`+1` when met).
    pub conf_bear: i8,
    /// L7: market-structure bias.
    pub structure: i8,
    /// L8: cumulative volume delta.
    pub cvd: i8,
    /// L9: awesome oscillator.
    pub ao: i8,
    /// L10: Hurst exponent.
    pub hurst: i8,
    /// L11: price acceleration, bull side.
    pub accel_bull: i8,
    /// L11: price acceleration, bear side.
    pub accel_bear: i8,
    /// Fibonacci gate for longs.
    pub fib_ok_long: bool,
    /// Fibonacci gate for shorts.
    pub fib_ok_short: bool,
    pub wave_ok_long: bool,
    pub wave_ok_short: bool,
    pub mom_ok_long: bool,
    pub mom_ok_short: bool,
}

/// The four core layers agree on a long.
pub open spec fn core_bull(v: LayerVotes) -> bool {
    v.vwap == 1 && v.ema == 1 && v.supertrend == -1 && v.trend_speed == 1
}

/// The four core layers agree on a short.
pub open spec fn core_bear(v: LayerVotes) -> bool {
    v.vwap == -1 && v.ema == -1 && v.supertrend == 1 && v.trend_speed == -1
}

pub open spec fn count_true(bs: Seq<bool>) -> nat
    decreases bs.len(),
{
    if bs.len() == 0 {
        0
    } else {
        count_true(bs.drop_last()) + if bs.last() {
            1nat
        } else {
            0nat
        }
    }
}

/// The ten extended confirmations of a long.
pub open spec fn bull_confirmations(v: LayerVotes) -> Seq<bool> {
    seq![
        v.liquidity == 1,
        v.conf_bull == 1,
        v.structure == 1,
        v.fib_ok_long,
        v.cvd == 1,
        v.ao == 1,
        v.wave_ok_long,
        v.mom_ok_long,
        v.hurst == 1,
        v.accel_bull == 1,
    ]
}

/// The ten extended confirmations of a short.
pub open spec fn bear_confirmations(v: LayerVotes) -> Seq<bool> {
    seq![
        v.liquidity == -1,
        v.conf_bear == 1,
        v.structure == -1,
        v.fib_ok_short,
        v.cvd == -1,
        v.ao == -1,
        v.wave_ok_short,
        v.mom_ok_short,
        v.hurst == 1,
        v.accel_bear == 1,
    ]
}

/// Whether the votes call for a long, and whether they call for a short.
pub open spec fn mode_sides(v: LayerVotes, mode: SignalMode) -> (bool, bool) {
    match mode {
        SignalMode::Strict => (
            core_bull(v) && v.liquidity == 1 && v.conf_bull == 1 && v.structure == 1
                && v.fib_ok_long && (v.cvd == 1 || v.cvd == 0) && v.ao == 1 && v.wave_ok_long
                && v.mom_ok_long && v.hurst == 1 && v.accel_bull == 1,
            core_bear(v) && v.liquidity == -1 && v.conf_bear == 1 && v.structure == -1
                && v.fib_ok_short && (v.cvd == -1 || v.cvd == 0) && v.ao == -1 && v.wave_ok_short
                && v.mom_ok_short && v.hurst == 1 && v.accel_bear == 1,
        ),
        SignalMode::Majority => (
            core_bull(v) && count_true(bull_confirmations(v)) >= 2,
            core_bear(v) && count_true(bear_confirmations(v)) >= 2,
        ),
        SignalMode::Any => (core_bull(v), core_bear(v)),
    }
}

/// The combined signal: `1` long, `-1` short, `0` none; a long call takes
/// precedence over a short one.
pub open spec fn combined_signal(v: LayerVotes, mode: SignalMode) -> i32 {
    let (bull, bear) = mode_sides(v, mode);
    if bull {
        1i32
    } else if bear {
        -1i32
    } else {
        0i32
    }
}

fn count_flags(flags: &[bool; 10]) -> (r: usize)
    ensures
        r == count_true(flags@),
{
    let mut n: usize = 0;
    let mut i: usize = 0;
    while i < 10
        invariant
            i <= 10,
            n <= i,
            n == count_true(flags@.subrange(0, i as int)),
        decreases 10 - i,
    {
        assert(flags@.subrange(0, i + 1).drop_last() =~= flags@.subrange(0, i as int));
        if flags[i] {
            n += 1;
        }
        i += 1;
    }
    assert(flags@.subrange(0, 10) =~= flags@);
    n
}

impl LayerVotes {
    /// Whether the votes call for a long and whether they call for a short,
    /// under `mode`.
    pub fn sides(&self, mode: SignalMode) -> (r: (bool, bool))
        ensures
            r == mode_sides(*self, mode),
    {
        let v = self;
        let core_bull = v.vwap == 1 && v.ema == 1 && v.supertrend == -1 && v.trend_speed == 1;
        let core_bear = v.vwap == -1 && v.ema == -1 && v.supertrend == 1 && v.trend_speed == -1;
        match mode {
            SignalMode::Strict => {
                let bull = core_bull && v.liquidity == 1 && v.conf_bull == 1 && v.structure == 1
                    && v.fib_ok_long && (v.cvd == 1 || v.cvd == 0) && v.ao == 1 && v.wave_ok_long
                    && v.mom_ok_long && v.hurst == 1 && v.accel_bull == 1;
                let bear = core_bear && v.liquidity == -1 && v.conf_bear == 1 && v.structure == -1
                    && v.fib_ok_short && (v.cvd == -1 || v.cvd == 0) && v.ao == -1
                    && v.wave_ok_short && v.mom_ok_short && v.hurst == 1 && v.accel_bear == 1;
                (bull, bear)
            },
            SignalMode::Majority => {
                let bull_flags = [
                    v.liquidity == 1,
                    v.conf_bull == 1,
                    v.structure == 1,
                    v.fib_ok_long,
                    v.cvd == 1,
                    v.ao == 1,
                    v.wave_ok_long,
                    v.mom_ok_long,
                    v.hurst == 1,
                    v.accel_bull == 1,
                ];
                let bear_flags = [
                    v.liquidity == -1,
                    v.conf_bear == 1,
                    v.structure == -1,
                    v.fib_ok_short,
                    v.cvd == -1,
                    v.ao == -1,
                    v.wave_ok_short,
                    v.mom_ok_short,
                    v.hurst == 1,
                    v.accel_bear == 1,
                ];
                assert(bull_flags@ =~= bull_confirmations(*v));
                assert(bear_flags@ =~= bear_confirmations(*v));
                let ext_bull = count_flags(&bull_flags);
                let ext_bear = count_flags(&bear_flags);
                (core_bull && ext_bull >= 2, core_bear && ext_bear >= 2)
            },
            SignalMode::Any => (core_bull, core_bear),
        }
    }

    /// The combined signal under `mode`: `1` long, `-1` short, `0` none.
    pub fn combine(&self, mode: SignalMode) -> (r: i32)
        ensures
            r == combined_signal(*self, mode),
    {
        let (bull, bear) = self.sides(mode);
        if bull {
            1
        } else if bear {
            -1
        } else {
            0
        }
    }

    /// The Fibonacci-gate flag reported with a bar: the long gate when the
    /// votes call for a long, the short gate otherwise.
    pub fn reported_fib_ok(&self, bull: bool) -> (r: bool)
        ensures
            r == if bull {
                self.fib_ok_long
            } else {
                self.fib_ok_short
            },
    {
        if bull {
            self.fib_ok_long
        } else {
            self.fib_ok_short
        }
    }
}

/// A non-neutral signal always has the four core layers agreeing with it, in
/// every mode.
pub proof fn lemma_signal_needs_core_agreement(v: LayerVotes, mode: SignalMode)
    ensures
        combined_signal(v, mode) == 1 ==> core_bull(v),
        combined_signal(v, mode) == -1 ==> core_bear(v),
        combined_signal(v, mode) == 0 || combined_signal(v, mode) == 1 || combined_signal(v, mode)
            == -1,
{
}

proof fn lemma_count_true_monotone(bs: Seq<bool>, k: int)
    requires
        0 <= k <= bs.len(),
    ensures
        count_true(bs) >= count_true(bs.subrange(0, k)),
    decreases bs.len() - k,
{
    if k < bs.len() {
        lemma_count_true_monotone(bs, k + 1);
        assert(bs.subrange(0, k + 1).drop_last() =~= bs.subrange(0, k));
    } else {
        assert(bs.subrange(0, k) =~= bs);
    }
}

proof fn lemma_first_three_counted(bs: Seq<bool>)
    requires
        bs.len() == 10,
        bs[0] && bs[1],
    ensures
        count_true(bs) >= 2,
{
    lemma_count_true_monotone(bs, 2);
    let p2 = bs.subrange(0, 2);
    let p1 = bs.subrange(0, 1);
    assert(p2.drop_last() =~= p1);
    assert(p1.drop_last() =~= bs.subrange(0, 0));
    assert(count_true(bs.subrange(0, 0)) == 0);
    assert(p1.last() == bs[0]);
    assert(count_true(p1) == 1);
    assert(p2.last() == bs[1]);
    assert(count_true(p2) == 2);
}

/// The modes are nested: whatever the strict mode signals, the majority mode
/// signals too, and whatever the majority mode signals, the core-only mode
/// signals too.
pub proof fn lemma_modes_are_nested(v: LayerVotes)
    ensures
        combined_signal(v, SignalMode::Strict) != 0 ==> combined_signal(v, SignalMode::Majority)
            == combined_signal(v, SignalMode::Strict),
        combined_signal(v, SignalMode::Majority) != 0 ==> combined_signal(v, SignalMode::Any)
            == combined_signal(v, SignalMode::Majority),
{
    if mode_sides(v, SignalMode::Strict).0 {
        lemma_first_three_counted(bull_confirmations(v));
    }
    if mode_sides(v, SignalMode::Strict).1 {
        lemma_first_three_counted(bear_confirmations(v));
    }
}

/// `w` is `v` read from the other side of the market: every directional
/// vote is negated, the bull and bear scores, acceleration sides and gates
/// are swapped, and the Hurst vote (trending or not) is kept.
pub open spec fn mirrored(v: LayerVotes, w: LayerVotes) -> bool {
    &&& w.vwap == -v.vwap
    &&& w.ema == -v.ema
    &&& w.supertrend == -v.supertrend
    &&& w.trend_speed == -v.trend_speed
    &&& w.liquidity == -v.liquidity
    &&& w.structure == -v.structure
    &&& w.cvd == -v.cvd
    &&& w.ao == -v.ao
    &&& w.conf_bull == v.conf_bear && w.conf_bear == v.conf_bull
    &&& w.hurst == v.hurst
    &&& w.accel_bull == v.accel_bear && w.accel_bear == v.accel_bull
    &&& w.fib_ok_long == v.fib_ok_short && w.fib_ok_short == v.fib_ok_long
    &&& w.wave_ok_long == v.wave_ok_short && w.wave_ok_short == v.wave_ok_long
    &&& w.mom_ok_long == v.mom_ok_short && w.mom_ok_short == v.mom_ok_long
}

/// The signal rules treat the two sides alike: reading every vote from the
/// other side of the market negates the combined signal, in every mode.
pub proof fn lemma_mirrored_votes_negate_signal(v: LayerVotes, w: LayerVotes, mode: SignalMode)
    requires
        mirrored(v, w),
    ensures
        combined_signal(w, mode) == -combined_signal(v, mode),
{
    assert(bull_confirmations(w) =~= bear_confirmations(v));
    assert(bear_confirmations(w) =~= bull_confirmations(v));
}

/// In majority mode, agreeing core layers plus a market structure and a CVD
/// on the same side are enough for a signal on that side.
pub proof fn lemma_majority_structure_and_cvd_confirm(v: LayerVotes)
    ensures
        core_bull(v) && v.structure == 1 && v.cvd == 1 ==> combined_signal(v, SignalMode::Majority)
            == 1,
        core_bear(v) && v.structure == -1 && v.cvd == -1 ==> combined_signal(
            v,
            SignalMode::Majority,
        ) == -1,
{
    if core_bull(v) && v.structure == 1 && v.cvd == 1 {
        lemma_structure_and_cvd_counted(bull_confirmations(v));
    }
    if core_bear(v) && v.structure == -1 && v.cvd == -1 {
        lemma_structure_and_cvd_counted(bear_confirmations(v));
    }
}

proof fn lemma_structure_and_cvd_counted(bs: Seq<bool>)
    requires
        bs.len() == 10,
        bs[2] && bs[4],
    ensures
        count_true(bs) >= 2,
{
    lemma_count_true_monotone(bs, 5);
    let p5 = bs.subrange(0, 5);
    let p4 = bs.subrange(0, 4);
    let p3 = bs.subrange(0, 3);
    assert(p5.drop_last() =~= p4);
    assert(p4.drop_last() =~= p3);
    assert(p3.drop_last() =~= bs.subrange(0, 2));
    assert(count_true(p3) >= 1);
    assert(count_true(p5) >= count_true(p4) + 1);
    assert(count_true(p4) >= count_true(p3));
}

// ── Individual votes ──────────────────────────────────────────────────────────

/// A two-sided vote: `1` for the bullish side, `-1` otherwise.
pub fn side_vote(bullish: bool) -> (r: i8)
    ensures
        r == if bullish {
            1i8
        } else {
            -1i8
        },
{
    if bullish {
        1
    } else {
        -1
    }
}

/// L3: the SuperTrend direction `-1` (price above the band) votes `-1`,
/// any other direction `1`.
pub fn supertrend_vote(direction: i32) -> (r: i8)
    ensures
        r == if direction == -1 {
            -1i8
        } else {
            1i8
        },
{
    if direction == -1 {
        -1
    } else {
        1
    }
}

/// L8: without a CVD tracker the vote is neutral; otherwise a divergence
/// signal wins, then the sign of the CVD slope.
pub fn cvd_vote(tracker: Option<(i8, bool)>) -> (r: i8)
    ensures
        r == match tracker {
            None => 0i8,
            Some((divergence, bullish)) => if divergence != 0 {
                divergence
            } else if bullish {
                1i8
            } else {
                -1i8
            },
        },
{
    match tracker {
        None => 0,
        Some((divergence, bullish)) => {
            if divergence != 0 {
                divergence
            } else if bullish {
                1
            } else {
                -1
            }
        },
    }
}

/// Bars the awesome oscillator needs before it votes.
pub const AO_WARMUP_BARS: usize = 34;

/// L9: neutral until 34 bars have been seen, then the oscillator's
/// direction.
pub fn ao_vote(bars_seen: usize, rising: bool) -> (r: i8)
    ensures
        r == if bars_seen >= AO_WARMUP_BARS {
            if rising {
                1i8
            } else {
                -1i8
            }
        } else {
            0i8
        },
{
    if bars_seen >= AO_WARMUP_BARS {
        if rising {
            1
        } else {
            -1
        }
    } else {
        0
    }
}

/// Fibonacci gate for one direction: it lets a signal through unless the
/// zone filter is enabled, a midpoint exists and price lies outside the zone.
pub fn fib_gate(enabled: bool, in_zone: bool, has_midpoint: bool) -> (r: bool)
    ensures
        r == (!enabled || in_zone || !has_midpoint),
{
    !enabled || in_zone || !has_midpoint
}

/// The Fibonacci zone label: discount takes precedence over premium,
/// otherwise mid.
pub fn fib_zone(in_discount: bool, in_premium: bool) -> (r: &'static str)
    ensures
        r@ == if in_discount {
            "discount"@
        } else if in_premium {
            "premium"@
        } else {
            "mid"@
        },
{
    if in_discount {
        "discount"
    } else if in_premium {
        "premium"
    } else {
        "mid"
    }
}

/// Bars the full signal pipeline needs: the largest warm-up among the
/// engine's training period, the confluence trend EMA (`trend_len + 1`),
/// the liquidity window, the CVD divergence look-back (`div_lookback + 1`)
/// and the market-structure swings (`4 * swing_len + 10`).
pub fn signal_required_len(
    training_period: usize,
    trend_len: usize,
    liquidity_period: usize,
    div_lookback: usize,
    swing_len: usize,
) -> (r: usize)
    requires
        trend_len < usize::MAX,
        div_lookback < usize::MAX,
        4 * swing_len + 10 <= usize::MAX,
    ensures
        r >= training_period,
        r >= trend_len + 1,
        r >= liquidity_period,
        r >= div_lookback + 1,
        r >= 4 * swing_len + 10,
        r == training_period || r == trend_len + 1 || r == liquidity_period || r == div_lookback
            + 1 || r == 4 * swing_len + 10,
{
    let mut r = training_period;
    if trend_len + 1 > r {
        r = trend_len + 1;
    }
    if liquidity_period > r {
        r = liquidity_period;
    }
    if div_lookback + 1 > r {
        r = div_lookback + 1;
    }
    if swing_len * 4 + 10 > r {
        r = swing_len * 4 + 10;
    }
    r
}

} // verus!
