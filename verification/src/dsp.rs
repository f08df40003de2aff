//! Spatial upmix stage: a fixed-point per-frame transform that turns a
//! two-channel stream into a 4/6/8-channel surround layout.
//!
//! All arithmetic is integer arithmetic on the `SAMPLE_SCALE` fixed-point
//! scale. Gains are rational factors `num / GAIN_DEN`; the low-pass filters
//! feeding the low-frequency channel are one-pole smoothers with a rational
//! coefficient `alpha / ALPHA_DEN` derived from the cutoff and sample rate.

use vstd::prelude::*;
use vstd::arithmetic::div_mod::{
    lemma_div_is_ordered, lemma_div_multiples_vanish, lemma_div_nonincreasing,
    lemma_div_pos_is_pos,
};
use vstd::arithmetic::mul::{
    lemma_mul_inequality, lemma_mul_left_inequality, lemma_mul_unary_negation, lemma_mul_upper_bound,
};

use crate::{spec_clamp, clamp_sample, ChannelConfig, SAMPLE_SCALE};

verus! {

/// Denominator of every gain factor: a gain of `GAIN_DEN` is unity.
pub const GAIN_DEN: u32 = 1000;

/// Largest admissible gain numerator (four times unity), chosen so that no
/// intermediate product leaves the comfortable range of 64-bit arithmetic.
pub const GAIN_MAX: u32 = 4000;

/// Denominator of the low-pass coefficient.
pub const ALPHA_DEN: u32 = 4096;

/// Division that truncates toward zero, the rounding of machine division on
/// signed integers. For a non-negative dividend it agrees with the
/// mathematical (floor) division that `int` carries.
pub open spec fn spec_tdiv(a: int, d: int) -> int
    recommends
        d >= 1,
{
    if a >= 0 {
        a / d
    } else {
        -((-a) / d)
    }
}

/// `x * num / den`, truncated toward zero.
pub open spec fn spec_mul_div(x: int, num: int, den: int) -> int
    recommends
        den >= 1,
{
    spec_tdiv(x * num, den)
}

/// Truncating division shrinks magnitudes: a bound on the dividend scales
/// down to a bound on the quotient.
pub proof fn lemma_tdiv_bound(a: int, d: int, b: int)
    requires
        d >= 1,
        0 <= b,
        -b <= a <= b,
    ensures
        -(b / d) <= spec_tdiv(a, d) <= b / d,
{
    if a >= 0 {
        lemma_div_is_ordered(a, b, d);
        lemma_div_pos_is_pos(a, d);
        lemma_div_pos_is_pos(b, d);
    } else {
        lemma_div_is_ordered(-a, b, d);
        lemma_div_pos_is_pos(-a, d);
    }
}

/// A bound on the factor gives a bound on the scaled value:
/// `|x| <= b` implies `|x * num / den| <= b * num / den`.
pub proof fn lemma_mul_div_bound(x: int, num: int, den: int, b: int)
    requires
        den >= 1,
        0 <= num,
        0 <= b,
        -b <= x <= b,
    ensures
        -((b * num) / den) <= spec_mul_div(x, num, den) <= (b * num) / den,
{
    if x >= 0 {
        lemma_mul_inequality(x, b, num);
    } else {
        lemma_mul_inequality(-x, b, num);
        lemma_mul_unary_negation(x, num);
    }
    lemma_tdiv_bound(x * num, den, b * num);
}

/// Scaling by a factor of at most one does not grow the magnitude.
pub proof fn lemma_mul_div_contracts(x: int, num: int, den: int, b: int)
    requires
        den >= 1,
        0 <= num <= den,
        0 <= b,
        -b <= x <= b,
    ensures
        -b <= spec_mul_div(x, num, den) <= b,
{
    lemma_mul_div_bound(x, num, den, b);
    lemma_mul_inequality(num, den, b);
    assert(b * num == num * b && b * den == den * b) by (nonlinear_arith);
    lemma_div_is_ordered(b * num, b * den, den);
    lemma_div_multiples_vanish(b, den);
}

/// Executable `x * num / den`, truncated toward zero, computed on magnitudes
/// so that machine division is only ever applied to non-negative values.
pub fn mul_div(x: i64, num: u32, den: u32) -> (r: i64)
    requires
        1 <= den,
        -0x100_0000_0000i64 <= x <= 0x100_0000_0000i64,
        num <= 0x10_0000,
    ensures
        r == spec_mul_div(x as int, num as int, den as int),
{
    if x >= 0 {
        proof {
            lemma_mul_upper_bound(x as int, 0x100_0000_0000, num as int, 0x10_0000);
        }
        let p: u64 = (x as u64) * (num as u64);
        let q: u64 = p / (den as u64);
        proof {
            lemma_div_nonincreasing(p as int, den as int);
        }
        q as i64
    } else {
        let m: i64 = -x;
        proof {
            lemma_mul_upper_bound(m as int, 0x100_0000_0000, num as int, 0x10_0000);
        }
        let p: u64 = (m as u64) * (num as u64);
        let q: u64 = p / (den as u64);
        proof {
            lemma_div_nonincreasing(p as int, den as int);
            lemma_mul_unary_negation(x as int, num as int);
        }
        -(q as i64)
    }
}

/// The per-channel gain factors of the upmix matrix, numerators over
/// `GAIN_DEN`. They are tuning constants: any table within `GAIN_MAX` keeps
/// the stage inside the clamp range.
#[derive(Clone, Copy, Debug, PartialEq, Eq, Structural)]
pub struct GainTable {
    /// Gain of the synthesized center channel, applied to `l + r`.
    pub center: u32,
    /// Gain of the ambience difference signal, applied to `l - r`.
    pub ambience: u32,
    /// Gain applied to the delayed signal feeding the surround channels.
    pub rear: u32,
    /// Gain applied to the low-passed mono signal feeding the LFE channel.
    pub lfe: u32,
    /// Gain applied to the surround signal to derive the 7.1 side channels.
    pub side: u32,
}

impl GainTable {
    /// Every gain stays below `GAIN_MAX`.
    pub open spec fn wf(self) -> bool {
        self.center <= GAIN_MAX && self.ambience <= GAIN_MAX && self.rear <= GAIN_MAX
            && self.lfe <= GAIN_MAX && self.side <= GAIN_MAX
    }

    /// The tuning used by the engine, as a specification value.
    pub open spec fn spec_default_table() -> GainTable {
        GainTable { center: 400, ambience: 300, rear: 400, lfe: 1200, side: 800 }
    }

    /// The tuning used by the engine: center at 0.4, ambience at 0.3,
    /// rear at 0.4, LFE boosted to 1.2, sides at 0.8.
    #[verifier::when_used_as_spec(spec_default_table)]
    pub fn default_table() -> (g: GainTable)
        ensures
            g.wf(),
            g.center == 400,
            g.ambience == 300,
            g.rear == 400,
            g.lfe == 1200,
            g.side == 800,
    {
        GainTable { center: 400, ambience: 300, rear: 400, lfe: 1200, side: 800 }
    }
}

/// Mathematical state of the spatial processor: the two low-pass filter
/// memories, the low-pass coefficient, and the circular delay line.
#[verifier::ext_equal]
pub ghost struct SpatialModel {
    pub alpha: int,
    pub lfe1: int,
    pub lfe2: int,
    pub delay: Seq<(int, int)>,
    pub pos: int,
}

/// A delay buffer's entries as unbounded integer pairs.
pub open spec fn pair_view(s: Seq<(i64, i64)>) -> Seq<(int, int)> {
    Seq::new(s.len(), |i: int| (s[i].0 as int, s[i].1 as int))
}

impl SpatialModel {
    /// The coefficient is a factor of at most one, the filter memories and
    /// every delayed sample are within full scale, and the cursor is inside
    /// the buffer.
    pub open spec fn wf(self) -> bool {
        &&& 0 <= self.alpha <= ALPHA_DEN as int
        &&& -(SAMPLE_SCALE as int) <= self.lfe1 <= SAMPLE_SCALE as int
        &&& -(SAMPLE_SCALE as int) <= self.lfe2 <= SAMPLE_SCALE as int
        &&& (self.delay.len() == 0 ==> self.pos == 0)
        &&& (self.delay.len() > 0 ==> 0 <= self.pos < self.delay.len())
        &&& forall|i: int|
            0 <= i < self.delay.len() ==> -(SAMPLE_SCALE as int) <= (
            #[trigger] self.delay[i]).0 <= SAMPLE_SCALE as int && -(SAMPLE_SCALE as int)
                <= self.delay[i].1 <= SAMPLE_SCALE as int
    }

    /// A state that carries no signal: silent filters and a silent delay line.
    pub open spec fn silent(self) -> bool {
        &&& self.lfe1 == 0
        &&& self.lfe2 == 0
        &&& forall|i: int| 0 <= i < self.delay.len() ==> #[trigger] self.delay[i] == (0int, 0int)
    }
}

/// One step of the one-pole low-pass: the memory moves toward the input by
/// the fraction `alpha / ALPHA_DEN`.
pub open spec fn lp_next(st: int, x: int, alpha: int) -> int {
    st + spec_mul_div(x - st, alpha, ALPHA_DEN as int)
}

/// The low-pass step lands between its memory and its input.
pub proof fn lemma_lp_between(st: int, x: int, alpha: int)
    requires
        0 <= alpha <= ALPHA_DEN as int,
    ensures
        st <= x ==> st <= lp_next(st, x, alpha) <= x,
        x <= st ==> x <= lp_next(st, x, alpha) <= st,
{
    let d = x - st;
    if d >= 0 {
        lemma_mul_div_contracts(d, alpha, ALPHA_DEN as int, d);
        vstd::arithmetic::mul::lemma_mul_nonnegative(d, alpha);
        lemma_div_pos_is_pos(d * alpha, ALPHA_DEN as int);
    } else {
        lemma_mul_div_contracts(d, alpha, ALPHA_DEN as int, -d);
        vstd::arithmetic::mul::lemma_mul_nonnegative(-d, alpha);
        lemma_div_pos_is_pos(-d * alpha, ALPHA_DEN as int);
        lemma_mul_unary_negation(d, alpha);
    }
}

/// The low-pass coefficient numerator chosen for a sample rate: the cutoff
/// is 120 Hz capped at the Nyquist frequency, `k` approximates `2 * pi`
/// times the cutoff on a scale of one thousandth, and the coefficient is
/// `k / (k + rate)` on the `ALPHA_DEN` scale.
pub open spec fn spec_alpha(rate: int) -> int {
    let cutoff = if rate / 2 < 120 {
        rate / 2
    } else {
        120
    };
    let k = (6283 * cutoff) / 1000;
    (ALPHA_DEN as int * k) / (k + rate)
}

/// The state of a freshly constructed processor: silent memory, a delay
/// line of twenty milliseconds, the coefficient of `spec_alpha`.
pub open spec fn spec_fresh_spatial(rate: int) -> SpatialModel {
    SpatialModel {
        alpha: spec_alpha(rate),
        lfe1: 0,
        lfe2: 0,
        delay: Seq::new((rate / 50) as nat, |i: int| (0int, 0int)),
        pos: 0,
    }
}

/// What one frame does to the processor: both filters advance on the mono
/// mix, the frame enters the delay line, and the oldest delayed frame comes
/// out. Returns the next state, the low-passed mono sample, and the delayed
/// left and right samples.
pub open spec fn spec_process(m: SpatialModel, l: int, r: int) -> (SpatialModel, int, int, int) {
    let mono = spec_tdiv(l + r, 2);
    let f1 = lp_next(m.lfe1, mono, m.alpha);
    let f2 = lp_next(m.lfe2, f1, m.alpha);
    if m.delay.len() == 0 {
        (SpatialModel { lfe1: f1, lfe2: f2, ..m }, f2, l, r)
    } else {
        let p2 = (m.pos + 1) % (m.delay.len() as int);
        let d2 = m.delay.update(m.pos, (l, r));
        (SpatialModel { lfe1: f1, lfe2: f2, delay: d2, pos: p2, ..m }, f2, d2[p2].0, d2[p2].1)
    }
}

/// Filter and delay memory of the upmix stage. Reset on every construction:
/// no state crosses from one track or seek to the next.
pub struct SpatialProcessor {
    /// Memory of the first low-pass stage.
    pub lfe_state_1: i64,
    /// Memory of the second, cascaded low-pass stage.
    pub lfe_state_2: i64,
    /// Numerator of the low-pass coefficient, over `ALPHA_DEN`.
    pub alpha_num: u32,
    /// Circular delay line of (left, right) frames.
    pub delay_buffer: Vec<(i64, i64)>,
    /// Cursor into the delay line: the slot the next frame is written to.
    pub delay_pos: usize,
}

impl SpatialProcessor {
    /// The mathematical state this processor is in.
    pub open spec fn model(self) -> SpatialModel {
        SpatialModel {
            alpha: self.alpha_num as int,
            lfe1: self.lfe_state_1 as int,
            lfe2: self.lfe_state_2 as int,
            delay: pair_view(self.delay_buffer@),
            pos: self.delay_pos as int,
        }
    }

    pub open spec fn wf(self) -> bool {
        self.model().wf()
    }

    /// A fresh processor for the given sample rate: silent memory, a delay
    /// line of twenty milliseconds, and a low-pass coefficient for a cutoff
    /// of 120 Hz, capped at the Nyquist frequency.
    pub fn new(sample_rate: u32) -> (p: SpatialProcessor)
        requires
            sample_rate >= 1,
        ensures
            p.wf(),
            p.model().silent(),
            p.model() =~= spec_fresh_spatial(sample_rate as int),
    {
        let cutoff: u32 = if sample_rate / 2 < 120 {
            sample_rate / 2
        } else {
            120
        };
        // 2 * pi * cutoff, on a scale of one thousandth.
        let k: u64 = (6283u64 * cutoff as u64) / 1000;
        let alpha_num: u32 = ((ALPHA_DEN as u64 * k) / (k + sample_rate as u64)) as u32;
        proof {
            lemma_div_nonincreasing((6283 * cutoff as int) / 1000, 1);
            lemma_div_is_ordered(
                ALPHA_DEN as int * k as int,
                ALPHA_DEN as int * (k as int + sample_rate as int),
                k as int + sample_rate as int,
            );
            lemma_mul_inequality(k as int, k as int + sample_rate as int, ALPHA_DEN as int);
            assert(ALPHA_DEN as int * k as int == k as int * ALPHA_DEN as int) by (nonlinear_arith);
            assert(ALPHA_DEN as int * (k as int + sample_rate as int) == (k as int
                + sample_rate as int) * ALPHA_DEN as int) by (nonlinear_arith);
            lemma_div_multiples_vanish(ALPHA_DEN as int, k as int + sample_rate as int);
        }
        let delay_len: usize = (sample_rate / 50) as usize;
        let mut delay_buffer: Vec<(i64, i64)> = Vec::new();
        let mut i: usize = 0;
        while i < delay_len
            invariant
                i <= delay_len,
                delay_buffer@.len() == i as int,
                forall|j: int| 0 <= j < i as int ==> #[trigger] delay_buffer@[j] == (0i64, 0i64),
            decreases delay_len - i,
        {
            delay_buffer.push((0i64, 0i64));
            i = i + 1;
        }
        let p = SpatialProcessor {
            lfe_state_1: 0,
            lfe_state_2: 0,
            alpha_num,
            delay_buffer,
            delay_pos: 0,
        };
        p
    }

    /// Run one stereo frame through the filter and delay memory.
    pub fn process(&mut self, l: i64, r: i64) -> (out: (i64, i64, i64))
        requires
            old(self).wf(),
            -SAMPLE_SCALE <= l <= SAMPLE_SCALE,
            -SAMPLE_SCALE <= r <= SAMPLE_SCALE,
        ensures
            final(self).wf(),
            final(self).model() =~= spec_process(old(self).model(), l as int, r as int).0,
            out.0 as int == spec_process(old(self).model(), l as int, r as int).1,
            out.1 as int == spec_process(old(self).model(), l as int, r as int).2,
            out.2 as int == spec_process(old(self).model(), l as int, r as int).3,
            -SAMPLE_SCALE <= out.0 <= SAMPLE_SCALE,
            -SAMPLE_SCALE <= out.1 <= SAMPLE_SCALE,
            -SAMPLE_SCALE <= out.2 <= SAMPLE_SCALE,
    {
        let mono: i64 = mul_div(l + r, 1, 2);
        proof {
            lemma_tdiv_bound((l + r) as int, 2, 2 * SAMPLE_SCALE as int);
            assert((l + r) as int * 1 == (l + r) as int);
        }
        let d1: i64 = mono - self.lfe_state_1;
        let q1: i64 = mul_div(d1, self.alpha_num, ALPHA_DEN);
        proof {
            lemma_lp_between(self.lfe_state_1 as int, mono as int, self.alpha_num as int);
        }
        let f1: i64 = self.lfe_state_1 + q1;
        self.lfe_state_1 = f1;
        let d2: i64 = f1 - self.lfe_state_2;
        let q2: i64 = mul_div(d2, self.alpha_num, ALPHA_DEN);
        proof {
            lemma_lp_between(self.lfe_state_2 as int, f1 as int, self.alpha_num as int);
        }
        let f2: i64 = self.lfe_state_2 + q2;
        self.lfe_state_2 = f2;
        let n: usize = self.delay_buffer.len();
        if n > 0 {
            self.delay_buffer[self.delay_pos] = (l, r);
            self.delay_pos = (self.delay_pos + 1) % n;
            let pair: (i64, i64) = self.delay_buffer[self.delay_pos];
            proof {
                let m0 = old(self).model();
                assert(pair_view(self.delay_buffer@) =~= m0.delay.update(
                    m0.pos,
                    (l as int, r as int),
                ));
            }
            (f2, pair.0, pair.1)
        } else {
            proof {
                assert(pair_view(self.delay_buffer@) =~= old(self).model().delay);
            }
            (f2, l, r)
        }
    }
}

/// A sequence of 64-bit samples as unbounded integers.
pub open spec fn int_view(s: Seq<i64>) -> Seq<int> {
    Seq::new(s.len(), |i: int| s[i] as int)
}

/// A sequence of decoded 16-bit samples as unbounded integers.
pub open spec fn int_view16(s: Seq<i16>) -> Seq<int> {
    Seq::new(s.len(), |i: int| s[i] as int)
}

/// Scaling a full-scale-bounded value by a gain keeps it within four times
/// full scale.
pub proof fn lemma_scaled_bound(x: int, num: int, b: int)
    requires
        0 <= num <= GAIN_MAX as int,
        0 <= b,
        -b <= x <= b,
    ensures
        -4 * b <= spec_mul_div(x, num, GAIN_DEN as int) <= 4 * b,
{
    lemma_mul_div_bound(x, num, GAIN_DEN as int, b);
    assert(0 <= b * num && b * num <= 1000 * (4 * b)) by (nonlinear_arith)
        requires
            0 <= num <= 4000,
            0 <= b,
    ;
    lemma_div_is_ordered(b * num, 1000 * (4 * b), 1000);
    lemma_div_multiples_vanish(4 * b, 1000);
    lemma_div_pos_is_pos(b * num, 1000);
}

/// The surround frame synthesized from one stereo frame: the matrix of
/// the upmix stage, every channel hard-clamped. Returns the processor
/// state after the frame and the `target` output samples in fixed order:
/// front left, front right, center, LFE, surround left, surround right,
/// and for an eight-channel layout the two side channels.
pub open spec fn spec_frame(m: SpatialModel, g: GainTable, target: int, l: int, r: int) -> (
    SpatialModel,
    Seq<int>,
) {
    let stepped = spec_process(m, l, r);
    let m2 = stepped.0;
    let lfe_raw = stepped.1;
    let dl = stepped.2;
    let dr = stepped.3;
    let center = spec_mul_div(l + r, g.center as int, GAIN_DEN as int);
    let ambience = spec_mul_div(l - r, g.ambience as int, GAIN_DEN as int);
    let s_l = spec_mul_div(dl, g.rear as int, GAIN_DEN as int) + ambience;
    let s_r = spec_mul_div(dr, g.rear as int, GAIN_DEN as int) - ambience;
    let lfe = spec_mul_div(lfe_raw, g.lfe as int, GAIN_DEN as int);
    let base = seq![
        spec_clamp(l),
        spec_clamp(r),
        spec_clamp(center),
        spec_clamp(lfe),
        spec_clamp(s_l),
        spec_clamp(s_r),
    ];
    if target == 8 {
        (
            m2,
            base + seq![
                spec_clamp(spec_mul_div(s_l, g.side as int, GAIN_DEN as int)),
                spec_clamp(spec_mul_div(s_r, g.side as int, GAIN_DEN as int)),
            ],
        )
    } else {
        (m2, base)
    }
}

/// A whole stereo stream, frame by frame, through the upmix stage.
pub open spec fn spec_upmix_run(
    frames: Seq<(int, int)>,
    m: SpatialModel,
    g: GainTable,
    target: int,
) -> (SpatialModel, Seq<int>)
    decreases frames.len(),
{
    if frames.len() == 0 {
        (m, Seq::<int>::empty())
    } else {
        let prev = spec_upmix_run(frames.drop_last(), m, g, target);
        let last = spec_frame(prev.0, g, target, frames.last().0, frames.last().1);
        (last.0, prev.1 + last.1)
    }
}

/// Real-time upmix stage: turns stereo frames into surround frames.
/// Stateful only in its filter and delay memory, which is fresh on every
/// construction.
pub struct UpmixSource {
    /// How many channels each output frame carries; six or eight.
    pub target_channels: u16,
    /// The gain table of the matrix.
    pub gains: GainTable,
    /// Filter and delay memory.
    pub dsp: SpatialProcessor,
}

impl UpmixSource {
    pub open spec fn model(self) -> SpatialModel {
        self.dsp.model()
    }

    pub open spec fn wf(self) -> bool {
        &&& self.dsp.wf()
        &&& self.gains.wf()
        &&& (self.target_channels == 6 || self.target_channels == 8)
    }

    /// A fresh stage for the given source sample rate and surround layout.
    pub fn new(sample_rate: u32, target_channels: u16, gains: GainTable) -> (u: UpmixSource)
        requires
            sample_rate >= 1,
            target_channels == 6 || target_channels == 8,
            gains.wf(),
        ensures
            u.wf(),
            u.target_channels == target_channels,
            u.gains == gains,
            u.model() =~= spec_fresh_spatial(sample_rate as int),
    {
        UpmixSource { target_channels, gains, dsp: SpatialProcessor::new(sample_rate) }
    }

    /// One stereo frame in, one clamped surround frame out.
    pub fn next_frame(&mut self, l: i64, r: i64) -> (frame: Vec<i64>)
        requires
            old(self).wf(),
            -SAMPLE_SCALE <= l <= SAMPLE_SCALE,
            -SAMPLE_SCALE <= r <= SAMPLE_SCALE,
        ensures
            final(self).wf(),
            final(self).target_channels == old(self).target_channels,
            final(self).gains == old(self).gains,
            final(self).model() =~= spec_frame(
                old(self).model(),
                old(self).gains,
                old(self).target_channels as int,
                l as int,
                r as int,
            ).0,
            int_view(frame@) =~= spec_frame(
                old(self).model(),
                old(self).gains,
                old(self).target_channels as int,
                l as int,
                r as int,
            ).1,
            frame@.len() == old(self).target_channels as int,
            forall|i: int| 0 <= i < frame@.len() ==> -SAMPLE_SCALE <= #[trigger] frame@[i]
                <= SAMPLE_SCALE,
    {
        let out: (i64, i64, i64) = self.dsp.process(l, r);
        let lfe_raw: i64 = out.0;
        let dl: i64 = out.1;
        let dr: i64 = out.2;
        let center: i64 = mul_div(l + r, self.gains.center, GAIN_DEN);
        let ambience: i64 = mul_div(l - r, self.gains.ambience, GAIN_DEN);
        proof {
            lemma_scaled_bound((l - r) as int, self.gains.ambience as int, 2 * SAMPLE_SCALE as int);
            lemma_scaled_bound(dl as int, self.gains.rear as int, SAMPLE_SCALE as int);
            lemma_scaled_bound(dr as int, self.gains.rear as int, SAMPLE_SCALE as int);
        }
        let s_l: i64 = mul_div(dl, self.gains.rear, GAIN_DEN) + ambience;
        let s_r: i64 = mul_div(dr, self.gains.rear, GAIN_DEN) - ambience;
        let lfe: i64 = mul_div(lfe_raw, self.gains.lfe, GAIN_DEN);
        let mut frame: Vec<i64> = Vec::new();
        frame.push(clamp_sample(l));
        frame.push(clamp_sample(r));
        frame.push(clamp_sample(center));
        frame.push(clamp_sample(lfe));
        frame.push(clamp_sample(s_l));
        frame.push(clamp_sample(s_r));
        if self.target_channels == 8 {
            frame.push(clamp_sample(mul_div(s_l, self.gains.side, GAIN_DEN)));
            frame.push(clamp_sample(mul_div(s_r, self.gains.side, GAIN_DEN)));
        }
        frame
    }
}

/// The stereo frames of an interleaved two-channel stream; a trailing
/// unpaired sample is dropped.
pub open spec fn frames_of(s: Seq<int>) -> Seq<(int, int)> {
    Seq::new((s.len() / 2) as nat, |i: int| (s[2 * i], s[2 * i + 1]))
}

/// What rendering a decoded track from a sample offset produces: the tail
/// of the stream unchanged where no upmix applies (a source that is not
/// stereo, or a stereo target), and otherwise the tail run frame by frame
/// through a fresh upmix stage.
pub open spec fn spec_render(
    samples: Seq<i16>,
    offset: int,
    in_channels: int,
    target: int,
    g: GainTable,
    rate: int,
) -> Seq<int> {
    let tail = int_view16(samples.skip(offset));
    if in_channels != 2 || target == 2 {
        tail
    } else {
        spec_upmix_run(frames_of(tail), spec_fresh_spatial(rate), g, target).1
    }
}

/// A fresh processor state is well formed and carries no signal.
pub proof fn lemma_fresh_spatial_wf(rate: int)
    requires
        rate >= 1,
    ensures
        spec_fresh_spatial(rate).wf(),
        spec_fresh_spatial(rate).silent(),
{
    let cutoff = if rate / 2 < 120 {
        rate / 2
    } else {
        120
    };
    let k = (6283 * cutoff) / 1000;
    lemma_div_pos_is_pos(rate, 2);
    lemma_div_pos_is_pos(6283 * cutoff, 1000);
    lemma_div_pos_is_pos(ALPHA_DEN as int * k, k + rate);
    lemma_div_is_ordered(ALPHA_DEN as int * k, ALPHA_DEN as int * (k + rate), k + rate);
    assert(ALPHA_DEN as int * k == k * ALPHA_DEN as int) by (nonlinear_arith);
    assert(ALPHA_DEN as int * (k + rate) == (k + rate) * ALPHA_DEN as int) by (nonlinear_arith);
    lemma_mul_inequality(k, k + rate, ALPHA_DEN as int);
    lemma_div_multiples_vanish(ALPHA_DEN as int, k + rate);
    lemma_div_pos_is_pos(rate, 50);
}

/// Render a decoded track from a sample offset into the output layout
/// through a fresh upmix stage: the executable form of `spec_render`.
/// Every produced sample lies within full scale.
pub fn render_upmixed(
    samples: &Vec<i16>,
    offset: usize,
    in_channels: u16,
    sample_rate: u32,
    mode: ChannelConfig,
    gains: &GainTable,
) -> (out: Vec<i64>)
    requires
        offset <= samples@.len(),
        sample_rate >= 1,
        gains.wf(),
    ensures
        int_view(out@) =~= spec_render(
            samples@,
            offset as int,
            in_channels as int,
            mode.spec_channel_count() as int,
            *gains,
            sample_rate as int,
        ),
        forall|i: int| 0 <= i < out@.len() ==> -SAMPLE_SCALE <= #[trigger] out@[i] <= SAMPLE_SCALE,
{
    let target: u16 = mode.channel_count();
    let ghost tail = int_view16(samples@.skip(offset as int));
    if in_channels != 2 || target == 2 {
        let mut out: Vec<i64> = Vec::new();
        let mut i: usize = offset;
        while i < samples.len()
            invariant
                offset <= i <= samples@.len(),
                out@.len() == i - offset,
                forall|j: int|
                    0 <= j < out@.len() ==> #[trigger] out@[j] == samples@[offset + j] as i64,
            decreases samples@.len() - i,
        {
            let s: i16 = samples[i];
            out.push(s as i64);
            i = i + 1;
        }
        out
    } else {
        let ghost frames = frames_of(tail);
        let ghost g = *gains;
        let ghost m0 = spec_fresh_spatial(sample_rate as int);
        let mut up = UpmixSource::new(sample_rate, target, *gains);
        let mut out: Vec<i64> = Vec::new();
        let mut i: usize = offset;
        proof {
            assert(frames.take(0) =~= Seq::<(int, int)>::empty());
        }
        while samples.len() - i >= 2
            invariant
                up.wf(),
                up.target_channels == target,
                up.gains == g,
                target == 6 || target == 8,
                offset <= i <= samples@.len(),
                (i - offset) % 2 == 0,
                frames == frames_of(tail),
                tail == int_view16(samples@.skip(offset as int)),
                0 <= (i - offset) / 2 <= frames.len(),
                up.model() =~= spec_upmix_run(frames.take((i - offset) / 2), m0, g, target as int).0,
                int_view(out@) =~= spec_upmix_run(frames.take((i - offset) / 2), m0, g, target as int).1,
                forall|j: int| 0 <= j < out@.len() ==> -SAMPLE_SCALE <= #[trigger] out@[j]
                    <= SAMPLE_SCALE,
            decreases samples@.len() - i,
        {
            let ghost k = (i - offset) as int / 2;
            let l: i64 = samples[i] as i64;
            let r: i64 = samples[i + 1] as i64;
            let mut frame = up.next_frame(l, r);
            proof {
                assert(frames[k] == (tail[2 * k], tail[2 * k + 1]));
                assert(tail[2 * k] == samples@[offset + 2 * k] as int);
                assert(tail[2 * k + 1] == samples@[offset + 2 * k + 1] as int);
                assert(frames.take(k + 1).drop_last() =~= frames.take(k));
                assert(frames.take(k + 1).last() == frames[k]);
                assert(int_view(out@ + frame@) =~= int_view(out@) + int_view(frame@));
            }
            out.append(&mut frame);
            i = i + 2;
        }
        proof {
            assert((i - offset) as int / 2 == frames.len());
            assert(frames.take(frames.len() as int) =~= frames);
        }
        out
    }
}

/// The upmix of silence is silence: a zero-signal stereo stream through a
/// silent stage yields zero on every output channel, and leaves the stage
/// silent.
pub proof fn lemma_frame_silent(m: SpatialModel, g: GainTable, target: int)
    requires
        m.wf(),
        m.silent(),
    ensures
        spec_frame(m, g, target, 0, 0).0.wf(),
        spec_frame(m, g, target, 0, 0).0.silent(),
        forall|i: int|
            0 <= i < spec_frame(m, g, target, 0, 0).1.len() ==> #[trigger] spec_frame(
                m,
                g,
                target,
                0,
                0,
            ).1[i] == 0,
{
    let stepped = spec_process(m, 0, 0);
    assert(spec_tdiv(0, 2) == 0) by {
        assert((0int) / 2 == 0);
    }
    assert(0 * m.alpha == 0);
    assert(spec_mul_div(0, m.alpha, ALPHA_DEN as int) == 0) by {
        assert(spec_tdiv(0 * m.alpha, ALPHA_DEN as int) == (0 * m.alpha) / ALPHA_DEN as int);
        assert((0int) / (ALPHA_DEN as int) == 0);
    }
    if m.delay.len() > 0 {
        let p2 = (m.pos + 1) % (m.delay.len() as int);
        vstd::arithmetic::div_mod::lemma_mod_division_less_than_divisor(
            m.pos + 1,
            m.delay.len() as int,
        );
        let d2 = m.delay.update(m.pos, (0int, 0int));
        assert forall|i: int| 0 <= i < d2.len() implies #[trigger] d2[i] == (0int, 0int) by {
            if i != m.pos {
                assert(d2[i] == m.delay[i]);
            }
        }
        assert(stepped.2 == 0 && stepped.3 == 0);
    }
    assert(stepped.1 == 0);
    let zc = spec_mul_div(0, g.center as int, GAIN_DEN as int);
    assert(0 * g.center as int == 0);
    assert(zc == 0) by {
        assert((0int) / (GAIN_DEN as int) == 0);
    }
    assert(0 * g.ambience as int == 0 && 0 * g.rear as int == 0 && 0 * g.lfe as int == 0 && 0
        * g.side as int == 0);
    assert((0int) / (GAIN_DEN as int) == 0);
    assert(spec_clamp(0) == 0);
}

/// A zero stereo stream through a silent stage: every output sample of the
/// whole run is zero.
pub proof fn lemma_run_silent(frames: Seq<(int, int)>, m: SpatialModel, g: GainTable, target: int)
    requires
        m.wf(),
        m.silent(),
        forall|i: int| 0 <= i < frames.len() ==> #[trigger] frames[i] == (0int, 0int),
    ensures
        spec_upmix_run(frames, m, g, target).0.wf(),
        spec_upmix_run(frames, m, g, target).0.silent(),
        forall|i: int|
            0 <= i < spec_upmix_run(frames, m, g, target).1.len() ==> #[trigger] spec_upmix_run(
                frames,
                m,
                g,
                target,
            ).1[i] == 0,
    decreases frames.len(),
{
    if frames.len() == 0 {
    } else {
        let head = frames.drop_last();
        lemma_run_silent(head, m, g, target);
        let prev = spec_upmix_run(head, m, g, target);
        assert(frames.last() == frames[frames.len() - 1]);
        lemma_frame_silent(prev.0, g, target);
    }
}

/// A zero-signal stereo track renders to zero on every output channel,
/// whatever the layout, the gain table and the offset: the fresh stage is
/// silent, and the upmix of silence is silence.
pub proof fn lemma_render_silence(
    samples: Seq<i16>,
    offset: int,
    target: int,
    g: GainTable,
    rate: int,
)
    requires
        0 <= offset <= samples.len(),
        rate >= 1,
        forall|i: int| 0 <= i < samples.len() ==> #[trigger] samples[i] == 0,
    ensures
        forall|i: int|
            0 <= i < spec_render(samples, offset, 2, target, g, rate).len() ==> #[trigger] spec_render(
                samples,
                offset,
                2,
                target,
                g,
                rate,
            )[i] == 0,
{
    let tail = int_view16(samples.skip(offset));
    assert forall|i: int| 0 <= i < tail.len() implies #[trigger] tail[i] == 0 by {
        assert(samples.skip(offset)[i] == samples[offset + i]);
    }
    if target == 2 {
    } else {
        let frames = frames_of(tail);
        assert forall|i: int| 0 <= i < frames.len() implies #[trigger] frames[i] == (0int, 0int) by {
            assert(tail[2 * i] == 0 && tail[2 * i + 1] == 0);
        }
        lemma_fresh_spatial_wf(rate);
        lemma_run_silent(frames, spec_fresh_spatial(rate), g, target);
    }
}

/// Every sample a render produces lies within full scale: the upmix path
/// clamps each channel, and a pass-through path carries 16-bit samples,
/// which full scale contains.
pub proof fn lemma_render_clamped(
    samples: Seq<i16>,
    offset: int,
    in_channels: int,
    target: int,
    g: GainTable,
    rate: int,
)
    requires
        0 <= offset <= samples.len(),
    ensures
        forall|i: int|
            0 <= i < spec_render(samples, offset, in_channels, target, g, rate).len()
                ==> -(SAMPLE_SCALE as int) <= (#[trigger] spec_render(
                samples,
                offset,
                in_channels,
                target,
                g,
                rate,
            )[i]) && spec_render(samples, offset, in_channels, target, g, rate)[i]
                <= SAMPLE_SCALE as int,
{
    let tail = int_view16(samples.skip(offset));
    if in_channels != 2 || target == 2 {
        assert forall|i: int|
            0 <= i < tail.len() implies -(SAMPLE_SCALE as int) <= #[trigger] tail[i] && tail[i]
            <= SAMPLE_SCALE as int by {}
    } else {
        lemma_run_clamped(frames_of(tail), spec_fresh_spatial(rate), g, target);
    }
}

/// Hard clamping holds over a whole run: whatever the input stream and the
/// stage's state, every sample the upmix emits lies within full scale.
pub proof fn lemma_run_clamped(frames: Seq<(int, int)>, m: SpatialModel, g: GainTable, target: int)
    ensures
        forall|i: int|
            0 <= i < spec_upmix_run(frames, m, g, target).1.len() ==> -(SAMPLE_SCALE as int) <= (
            #[trigger] spec_upmix_run(frames, m, g, target).1[i]) && spec_upmix_run(
                frames,
                m,
                g,
                target,
            ).1[i] <= SAMPLE_SCALE as int,
    decreases frames.len(),
{
    if frames.len() == 0 {
    } else {
        let head = frames.drop_last();
        lemma_run_clamped(head, m, g, target);
        let prev = spec_upmix_run(head, m, g, target);
        lemma_frame_clamped(prev.0, g, target, frames.last().0, frames.last().1);
    }
}

/// Every sample of one synthesized frame lies within full scale.
pub proof fn lemma_frame_clamped(m: SpatialModel, g: GainTable, target: int, l: int, r: int)
    ensures
        forall|j: int|
            0 <= j < spec_frame(m, g, target, l, r).1.len() ==> -(SAMPLE_SCALE as int) <= (
            #[trigger] spec_frame(m, g, target, l, r).1[j]) && spec_frame(m, g, target, l, r).1[j]
                <= SAMPLE_SCALE as int,
{
    let fr = spec_frame(m, g, target, l, r).1;
    assert forall|j: int|
        0 <= j < fr.len() implies -(SAMPLE_SCALE as int) <= #[trigger] fr[j] && fr[j]
        <= SAMPLE_SCALE as int by {
        assert(fr.len() == if target == 8 {
            8int
        } else {
            6int
        });
    }
}

} // verus!
