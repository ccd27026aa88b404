//! Spectral analyzer: a window of recent samples, per-band energies, beat
//! detection and tempo estimation.
//!
//! Everything is fixed point: samples and energies are integers in
//! micro-units (1.0 is `UNIT`), normalized values are parts per million,
//! times are milliseconds and tempo is in milli-BPM. The frequency transform
//! itself runs outside the library: `analyze` takes the spectrum of the
//! current window as a list of bins.
use std::collections::VecDeque;
use vstd::arithmetic::div_mod::{lemma_div_is_ordered, lemma_div_multiples_vanish};
use vstd::prelude::*;

verus! {

/// Number of samples in the analysis window.
pub const WINDOW_SIZE: usize = 2048;

/// Number of recent energies kept per band.
pub const HISTORY_CAPACITY: usize = 20;

/// The fixed-point one: energies are micro-units, normalized values ppm.
pub const UNIT: u64 = 1_000_000;

/// Starting value of each band's running maximum (0.01).
pub const INITIAL_MAX_ENERGY: u64 = 10_000;

/// Starting tempo estimate, in milli-BPM.
pub const INITIAL_BPM: u64 = 120_000;

/// Lowest tempo accepted into the estimate, in milli-BPM.
pub const MIN_BPM: u64 = 60_000;

/// Highest tempo accepted into the estimate, in milli-BPM.
pub const MAX_BPM: u64 = 200_000;

/// Minimum time between two recorded bass beats, in ms.
pub const REFRACTORY_MS: u64 = 200;

/// Beats older than this are dropped from the tempo window, in ms.
pub const TEMPO_WINDOW_MS: u64 = 5_000;

/// Distance from a beat boundary that still counts as on the beat, in ms.
pub const BEAT_TOLERANCE_MS: u64 = 100;

/// Band limits in millihertz.
pub const BASS_LOW_MHZ: u64 = 20_000;
pub const BASS_HIGH_MHZ: u64 = 250_000;
pub const MID_LOW_MHZ: u64 = 250_000;
pub const MID_HIGH_MHZ: u64 = 2_000_000;
pub const HIGH_LOW_MHZ: u64 = 2_000_000;
pub const HIGH_HIGH_MHZ: u64 = 20_000_000;

/// Spike thresholds against the previous energy, in tenths (1.4, 1.3, 1.2).
pub const BASS_THRESHOLD: u64 = 14;
pub const MID_THRESHOLD: u64 = 13;
pub const HIGH_THRESHOLD: u64 = 12;

/// Frequency ranges for audio analysis
#[derive(Debug, Clone, Copy, PartialEq, Eq)]
pub enum FrequencyRange {
    /// Bass frequencies (20-250 Hz)
    Bass,
    /// Mid-range frequencies (250-2000 Hz)
    Mid,
    /// High frequencies (2000-20000 Hz)
    High,
    /// Full spectrum
    Full,
}

/// One bin of a magnitude spectrum.
#[derive(Debug, Clone, Copy, PartialEq, Eq)]
pub struct SpectrumBin {
    /// Center frequency in millihertz.
    pub frequency_mhz: u64,
    /// Magnitude in micro-units.
    pub magnitude: u64,
}

pub open spec fn in_band(b: SpectrumBin, lo: u64, hi: u64) -> bool {
    lo <= b.frequency_mhz <= hi
}

/// Number of bins whose frequency lies in `[lo, hi]`.
pub open spec fn band_count(bins: Seq<SpectrumBin>, lo: u64, hi: u64) -> nat
    decreases bins.len(),
{
    if bins.len() == 0 {
        0
    } else {
        band_count(bins.drop_last(), lo, hi) + if in_band(bins.last(), lo, hi) {
            1nat
        } else {
            0nat
        }
    }
}

/// Sum of the magnitudes of the bins whose frequency lies in `[lo, hi]`.
pub open spec fn band_sum(bins: Seq<SpectrumBin>, lo: u64, hi: u64) -> nat
    decreases bins.len(),
{
    if bins.len() == 0 {
        0
    } else {
        band_sum(bins.drop_last(), lo, hi) + if in_band(bins.last(), lo, hi) {
            bins.last().magnitude as nat
        } else {
            0nat
        }
    }
}

/// Energy of a band: the mean magnitude of its bins scaled by 0.8, or
/// `None` when no bin falls in the band.
pub open spec fn band_energy(bins: Seq<SpectrumBin>, lo: u64, hi: u64) -> Option<u64> {
    let c = band_count(bins, lo, hi);
    if c == 0 {
        None
    } else {
        Some(((band_sum(bins, lo, hi) / c) * 4 / 5) as u64)
    }
}

pub open spec fn seq_sum(s: Seq<u64>) -> nat
    decreases s.len(),
{
    if s.len() == 0 {
        0
    } else {
        seq_sum(s.drop_last()) + s.last() as nat
    }
}

/// The state of one band, as a value.
pub struct BandView {
    pub energy: u64,
    pub smoothed: u64,
    pub max: u64,
    pub prev: u64,
    pub history: Seq<u64>,
    pub beat: bool,
}

/// The state of the analyzer, as a value.
pub struct AnalyzerView {
    pub window: Seq<i32>,
    pub bass: BandView,
    pub mid: BandView,
    pub high: BandView,
    pub bpm: u64,
    pub beat_times: Seq<u64>,
    pub last_beat: u64,
    pub sample_rate: usize,
}

/// The window after one more sample: appended, the oldest dropped when full.
pub open spec fn slid(w: Seq<i32>, x: i32) -> Seq<i32> {
    let p = w.push(x);
    if p.len() > WINDOW_SIZE {
        p.drop_first()
    } else {
        p
    }
}

/// Exponential moving average: 0.7 of the old value and 0.3 of the new.
pub open spec fn ema(old: u64, e: u64) -> u64 {
    ((7 * old + 3 * e) / 10) as u64
}

/// Slowly decaying maximum, raised at once when exceeded. The decay is
/// rounded up, so a positive maximum stays positive.
pub open spec fn decayed_max(m: u64, e: u64) -> u64 {
    let g = (9995 * m + 5 * e + 9999) / 10000;
    if e > g {
        e
    } else {
        g as u64
    }
}

/// A band after a new energy value has been measured (or none was).
pub open spec fn absorb(b: BandView, e: Option<u64>) -> BandView {
    match e {
        None => b,
        Some(e) => BandView { energy: e, smoothed: ema(b.smoothed, e), max: decayed_max(b.max, e), ..b },
    }
}

pub open spec fn pushed_history(h: Seq<u64>, e: u64) -> Seq<u64> {
    let p = h.push(e);
    if p.len() > HISTORY_CAPACITY {
        p.drop_first()
    } else {
        p
    }
}

/// Beat criterion of a band whose history already holds its current energy:
/// the normalized energy exceeds 0.3, and the energy either exceeds the
/// previous one by the band's threshold or exceeds 1.3 times the local
/// average while more than the refractory time has passed since the last beat.
pub open spec fn beat_criterion(b: BandView, threshold: u64, now: u64, last_beat: u64) -> bool {
    let e = b.energy as int;
    &&& b.max > 0
    &&& 10 * e > 3 * b.max
    &&& (10 * e > threshold * b.prev || (10 * e * b.history.len() > 13 * seq_sum(b.history) && now
        - last_beat > REFRACTORY_MS))
}

/// A band after beat detection at time `now`.
pub open spec fn detect(b: BandView, threshold: u64, now: u64, last_beat: u64) -> BandView {
    let h = BandView { history: pushed_history(b.history, b.energy), ..b };
    BandView { beat: beat_criterion(h, threshold, now, last_beat), prev: b.energy, ..h }
}

/// Drops from the front the beat times older than the tempo window.
pub open spec fn evict(ts: Seq<u64>, now: u64) -> Seq<u64>
    decreases ts.len(),
{
    if ts.len() > 0 && now - ts[0] > TEMPO_WINDOW_MS {
        evict(ts.drop_first(), now)
    } else {
        ts
    }
}

/// At least four beats over a positive span, whose rate lies in [60, 200] BPM.
pub open spec fn plausible_tempo(ts: Seq<u64>) -> bool {
    let n = ts.len() - 1;
    let span = ts.last() - ts[0];
    &&& ts.len() >= 4
    &&& span > 0
    &&& 60 * span <= 60_000 * n
    &&& 60_000 * n <= 200 * span
}

/// The rate of the beats in `ts`, in milli-BPM.
pub open spec fn instant_bpm(ts: Seq<u64>) -> int {
    (ts.len() - 1) * 60_000_000 / (ts.last() - ts[0])
}

pub open spec fn blend_bpm(bpm: u64, inst: int) -> u64 {
    ((7 * bpm + 3 * inst) / 10) as u64
}

/// Tempo state after a bass beat at `now`.
pub open spec fn after_bass_beat(a: AnalyzerView, now: u64) -> AnalyzerView {
    if now - a.last_beat > REFRACTORY_MS {
        let ts = evict(a.beat_times.push(now), now);
        AnalyzerView {
            last_beat: now,
            beat_times: ts,
            bpm: if plausible_tempo(ts) {
                blend_bpm(a.bpm, instant_bpm(ts))
            } else {
                a.bpm
            },
            ..a
        }
    } else {
        a
    }
}

/// The analyzer after one analysis tick at `now` on the spectrum `bins`.
pub open spec fn analyzed(a: AnalyzerView, bins: Seq<SpectrumBin>, now: u64) -> AnalyzerView {
    if a.window.len() < WINDOW_SIZE {
        a
    } else {
        let bass0 = absorb(a.bass, band_energy(bins, BASS_LOW_MHZ, BASS_HIGH_MHZ));
        let mid0 = absorb(a.mid, band_energy(bins, MID_LOW_MHZ, MID_HIGH_MHZ));
        let high0 = absorb(a.high, band_energy(bins, HIGH_LOW_MHZ, HIGH_HIGH_MHZ));
        let bass1 = detect(bass0, BASS_THRESHOLD, now, a.last_beat);
        let t = if bass1.beat {
            after_bass_beat(a, now)
        } else {
            a
        };
        let mid1 = detect(mid0, MID_THRESHOLD, now, t.last_beat);
        let high1 = detect(high0, HIGH_THRESHOLD, now, t.last_beat);
        AnalyzerView { bass: bass1, mid: mid1, high: high1, ..t }
    }
}

pub open spec fn band_wf(b: BandView) -> bool {
    &&& b.max > 0
    &&& b.smoothed <= b.max
    &&& b.history.len() <= HISTORY_CAPACITY
}

/// Recorded bass beats are more than the refractory time apart.
pub open spec fn beats_apart(ts: Seq<u64>) -> bool {
    forall|i: int, j: int| 0 <= i < j < ts.len() ==> ts[j] - ts[i] > REFRACTORY_MS
}

pub open spec fn analyzer_wf(a: AnalyzerView) -> bool {
    &&& a.window.len() <= WINDOW_SIZE
    &&& band_wf(a.bass)
    &&& band_wf(a.mid)
    &&& band_wf(a.high)
    &&& MIN_BPM <= a.bpm <= MAX_BPM
    &&& beats_apart(a.beat_times)
    &&& forall|i: int| 0 <= i < a.beat_times.len() ==> a.beat_times[i] <= a.last_beat
    &&& forall|i: int|
        0 <= i < a.beat_times.len() ==> a.last_beat - a.beat_times[i] <= TEMPO_WINDOW_MS
}

/// `e / m` in ppm, or 0 when `m` is 0.
pub open spec fn ratio_ppm(e: u64, m: u64) -> int {
    if m > 0 {
        (e * UNIT) as int / (m as int)
    } else {
        0
    }
}

pub open spec fn band_level(b: BandView) -> int {
    ratio_ppm(b.smoothed, b.max)
}

/// Normalized smoothed energy of a range, in ppm; the full range is the mean
/// of the three bands.
pub open spec fn normalized_energy(a: AnalyzerView, range: FrequencyRange) -> int {
    match range {
        FrequencyRange::Bass => band_level(a.bass),
        FrequencyRange::Mid => band_level(a.mid),
        FrequencyRange::High => band_level(a.high),
        FrequencyRange::Full => (band_level(a.bass) + band_level(a.mid) + band_level(a.high)) / 3,
    }
}

/// Raw energy of a range, in micro-units; the full range is the mean of the
/// three bands.
pub open spec fn energy_in(a: AnalyzerView, range: FrequencyRange) -> int {
    match range {
        FrequencyRange::Bass => a.bass.energy as int,
        FrequencyRange::Mid => a.mid.energy as int,
        FrequencyRange::High => a.high.energy as int,
        FrequencyRange::Full => (a.bass.energy + a.mid.energy + a.high.energy) / 3,
    }
}

pub open spec fn beat_in(a: AnalyzerView, range: FrequencyRange) -> bool {
    match range {
        FrequencyRange::Bass => a.bass.beat,
        FrequencyRange::Mid => a.mid.beat,
        FrequencyRange::High => a.high.beat,
        FrequencyRange::Full => a.bass.beat || a.mid.beat || a.high.beat,
    }
}

/// Whether `now` lies within the tolerance of a beat boundary of the current
/// tempo, counted from the last bass beat. A time before the last beat counts
/// as on the beat.
pub open spec fn on_beat(a: AnalyzerView, now: u64) -> bool {
    if a.bpm == 0 {
        false
    } else if now < a.last_beat {
        true
    } else {
        let p = ((now - a.last_beat) * a.bpm) % 60_000_000;
        p < BEAT_TOLERANCE_MS * a.bpm || p > 60_000_000 - BEAT_TOLERANCE_MS * a.bpm
    }
}

pub proof fn lemma_seq_sum_bound(s: Seq<u64>)
    ensures
        seq_sum(s) <= s.len() * 0xffff_ffff_ffff_ffff,
    decreases s.len(),
{
    if s.len() > 0 {
        lemma_seq_sum_bound(s.drop_last());
    }
}

/// A measured energy keeps the smoothed energy at or below the maximum.
proof fn lemma_absorb_wf(b: BandView, e: Option<u64>)
    requires
        band_wf(b),
    ensures
        band_wf(absorb(b, e)),
{
    if let Some(e) = e {
        let m = b.max as int;
        let s = b.smoothed as int;
        let g = (9995 * m + 5 * e + 9999) / 10000;
        assert(g >= 1);
        if e <= m {
            assert(g >= e);
            assert((7 * s + 3 * e) / 10 == (7000 * s + 3000 * e) / 10000);
            lemma_div_is_ordered(7000 * s + 3000 * e, 9995 * m + 5 * e + 9999, 10000);
        } else {
            assert((7 * s + 3 * e) / 10 <= e);
            if e <= g {
                assert(decayed_max(b.max, e) == g);
            }
        }
    }
}

/// The beat times left after eviction are a suffix of those before.
proof fn lemma_evict_suffix(ts: Seq<u64>, now: u64)
    ensures
        evict(ts, now).len() <= ts.len(),
        evict(ts, now) == ts.subrange(ts.len() - evict(ts, now).len(), ts.len() as int),
    decreases ts.len(),
{
    if ts.len() > 0 && now - ts[0] > TEMPO_WINDOW_MS {
        lemma_evict_suffix(ts.drop_first(), now);
        let r = evict(ts.drop_first(), now);
        assert(ts.drop_first().subrange(ts.len() - 1 - r.len(), ts.len() - 1) =~= ts.subrange(
            ts.len() - r.len(),
            ts.len() as int,
        ));
    } else {
        assert(ts.subrange(0, ts.len() as int) =~= ts);
    }
}

/// A plausible tempo is between 60 and 200 BPM.
pub proof fn lemma_plausible_tempo_range(ts: Seq<u64>)
    ensures
        plausible_tempo(ts) ==> MIN_BPM <= instant_bpm(ts) <= MAX_BPM,
{
    if plausible_tempo(ts) {
        let n = ts.len() - 1;
        let span = ts.last() - ts[0];
        let x = n * 60_000_000;
        assert(x >= 60_000 * span);
        assert(x <= 200_000 * span);
        lemma_div_multiples_vanish(60_000, span);
        lemma_div_multiples_vanish(200_000, span);
        lemma_div_is_ordered(span * 60_000, x, span);
        lemma_div_is_ordered(x, span * 200_000, span);
    }
}

/// What eviction leaves starts within the tempo window.
proof fn lemma_evict_recent(ts: Seq<u64>, now: u64)
    ensures
        evict(ts, now).len() > 0 ==> now - evict(ts, now)[0] <= TEMPO_WINDOW_MS,
    decreases ts.len(),
{
    if ts.len() > 0 && now - ts[0] > TEMPO_WINDOW_MS {
        lemma_evict_recent(ts.drop_first(), now);
    }
}

proof fn lemma_tempo_wf(a: AnalyzerView, now: u64)
    requires
        analyzer_wf(a),
    ensures
        analyzer_wf(after_bass_beat(a, now)),
{
    if now - a.last_beat > REFRACTORY_MS {
        let p = a.beat_times.push(now);
        assert(beats_apart(p)) by {
            assert forall|i: int, j: int| 0 <= i < j < p.len() implies p[j] - p[i] > REFRACTORY_MS by {
                if j == p.len() - 1 {
                    assert(p[i] <= a.last_beat);
                }
            }
        }
        let ts = evict(p, now);
        lemma_evict_suffix(p, now);
        let k = p.len() - ts.len();
        assert forall|i: int, j: int| 0 <= i < j < ts.len() implies ts[j] - ts[i] > REFRACTORY_MS by {
            assert(ts[i] == p[k + i] && ts[j] == p[k + j]);
        }
        assert forall|i: int| 0 <= i < ts.len() implies ts[i] <= now by {
            assert(ts[i] == p[k + i]);
            if k + i < p.len() - 1 {
                assert(p[k + i] == a.beat_times[k + i]);
            }
        }
        lemma_evict_recent(p, now);
        assert forall|i: int| 0 <= i < ts.len() implies now - ts[i] <= TEMPO_WINDOW_MS by {
            if i > 0 {
                assert(ts[i] - ts[0] > REFRACTORY_MS);
            }
        }
        lemma_plausible_tempo_range(ts);
    }
}

/// One analysis tick keeps the analyzer well formed.
pub proof fn lemma_analyzed_wf(a: AnalyzerView, bins: Seq<SpectrumBin>, now: u64)
    requires
        analyzer_wf(a),
    ensures
        analyzer_wf(analyzed(a, bins, now)),
{
    lemma_absorb_wf(a.bass, band_energy(bins, BASS_LOW_MHZ, BASS_HIGH_MHZ));
    lemma_absorb_wf(a.mid, band_energy(bins, MID_LOW_MHZ, MID_HIGH_MHZ));
    lemma_absorb_wf(a.high, band_energy(bins, HIGH_LOW_MHZ, HIGH_HIGH_MHZ));
    lemma_tempo_wf(a, now);
}


/// Energy of the band `[lo, hi]` in the spectrum `bins`.
fn measure_band(bins: &Vec<SpectrumBin>, lo: u64, hi: u64) -> (r: Option<u64>)
    ensures
        r == band_energy(bins@, lo, hi),
{
    let mut count: usize = 0;
    let mut sum: u128 = 0;
    let mut i: usize = 0;
    while i < bins.len()
        invariant
            i <= bins.len(),
            count <= i,
            count == band_count(bins@.take(i as int), lo, hi),
            sum == band_sum(bins@.take(i as int), lo, hi),
            sum <= count * 0xffff_ffff_ffff_ffffu128,
        decreases bins.len() - i,
    {
        let b = bins[i];
        proof {
            assert(bins@.take(i + 1).drop_last() =~= bins@.take(i as int));
        }
        if lo <= b.frequency_mhz && b.frequency_mhz <= hi {
            count = count + 1;
            sum = sum + b.magnitude as u128;
        }
        i = i + 1;
    }
    proof {
        assert(bins@.take(bins@.len() as int) =~= bins@);
    }
    if count == 0 {
        None
    } else {
        let c = count as u128;
        proof {
            lemma_div_multiples_vanish(0xffff_ffff_ffff_ffff, c as int);
            lemma_div_is_ordered(sum as int, c * 0xffff_ffff_ffff_ffff, c as int);
        }
        let avg = sum / c;
        Some((avg * 4 / 5) as u64)
    }
}

/// State of one frequency band.
pub struct BandState {
    energy: u64,
    smoothed_energy: u64,
    max_energy: u64,
    prev_energy: u64,
    energy_history: VecDeque<u64>,
    beat_detected: bool,
}

impl View for BandState {
    type V = BandView;

    closed spec fn view(&self) -> BandView {
        BandView {
            energy: self.energy,
            smoothed: self.smoothed_energy,
            max: self.max_energy,
            prev: self.prev_energy,
            history: self.energy_history@,
            beat: self.beat_detected,
        }
    }
}

impl BandState {
    fn new() -> (r: BandState)
        ensures
            r@ == (BandView {
                energy: 0,
                smoothed: 0,
                max: INITIAL_MAX_ENERGY,
                prev: 0,
                history: Seq::empty(),
                beat: false,
            }),
    {
        BandState {
            energy: 0,
            smoothed_energy: 0,
            max_energy: INITIAL_MAX_ENERGY,
            prev_energy: 0,
            energy_history: VecDeque::new(),
            beat_detected: false,
        }
    }

    /// Takes in a newly measured energy.
    fn absorb(&mut self, e: u64)
        ensures
            final(self)@ == absorb(old(self)@, Some(e)),
    {
        let m = self.max_energy as u128;
        let g = (9995 * m + 5 * (e as u128) + 9999) / 10000;
        self.energy = e;
        self.max_energy = if (e as u128) > g {
            e
        } else {
            g as u64
        };
        self.smoothed_energy = ((7 * (self.smoothed_energy as u128) + 3 * (e as u128)) / 10) as u64;
    }

    fn history_sum(&self) -> (r: u128)
        ensures
            r == seq_sum(self.energy_history@),
    {
        let h = &self.energy_history;
        let mut sum: u128 = 0;
        let mut i: usize = 0;
        while i < h.len()
            invariant
                i <= h@.len(),
                sum == seq_sum(h@.take(i as int)),
                sum <= i * 0xffff_ffff_ffff_ffffu128,
            decreases h@.len() - i,
        {
            proof {
                assert(h@.take(i + 1).drop_last() =~= h@.take(i as int));
            }
            sum = sum + h[i] as u128;
            i = i + 1;
        }
        proof {
            assert(h@.take(h@.len() as int) =~= h@);
        }
        sum
    }

    /// Beat detection for this band at `now`, given the time of the last
    /// recorded bass beat.
    fn detect(&mut self, threshold: u64, now: u64, last_beat: u64) -> (beat: bool)
        requires
            threshold <= BASS_THRESHOLD,
            old(self)@.history.len() <= HISTORY_CAPACITY,
        ensures
            final(self)@ == detect(old(self)@, threshold, now, last_beat),
            beat == final(self)@.beat,
    {
        self.energy_history.push_back(self.energy);
        if self.energy_history.len() > HISTORY_CAPACITY {
            self.energy_history.pop_front();
        }
        let sum = self.history_sum();
        proof {
            lemma_seq_sum_bound(self.energy_history@);
        }
        let e = self.energy as u128;
        let len = self.energy_history.len() as u128;
        let prev = self.prev_energy as u128;
        proof {
            assert(10 * e * len <= 10 * e * 21) by (nonlinear_arith)
                requires
                    len <= 21,
                    e >= 0,
            ;
            assert((threshold as u128) * prev <= 14 * prev) by (nonlinear_arith)
                requires
                    threshold <= 14,
                    prev >= 0,
            ;
        }
        let loud = self.max_energy > 0 && 10 * e > 3 * (self.max_energy as u128);
        let spike = 10 * e > (threshold as u128) * prev;
        let above_average = 10 * e * len > 13 * sum;
        let apart = now >= last_beat && now - last_beat > REFRACTORY_MS;
        let beat = loud && (spike || (above_average && apart));
        self.beat_detected = beat;
        self.prev_energy = self.energy;
        beat
    }

    /// Normalized smoothed energy in ppm.
    fn level(&self) -> (r: u32)
        requires
            band_wf(self@),
        ensures
            r == band_level(self@),
            r <= UNIT,
    {
        if self.max_energy > 0 {
            let m = self.max_energy as u128;
            let x = (self.smoothed_energy as u128) * (UNIT as u128);
            proof {
                lemma_div_multiples_vanish(UNIT as int, m as int);
                lemma_div_is_ordered(x as int, m * UNIT, m as int);
            }
            (x / m) as u32
        } else {
            0
        }
    }
}


/// What the visualization engine reads of the analyzer at one instant.
#[derive(Debug, Clone, Copy, PartialEq, Eq)]
pub struct Snapshot {
    /// Normalized bass energy, ppm.
    pub bass: u32,
    /// Normalized mid energy, ppm.
    pub mid: u32,
    /// Normalized high energy, ppm.
    pub high: u32,
    /// Normalized full-range energy, ppm.
    pub full: u32,
    pub bass_beat: bool,
    pub mid_beat: bool,
    pub high_beat: bool,
    /// Estimated tempo, milli-BPM.
    pub bpm: u64,
    /// Whether the instant lies on a beat of the estimated tempo.
    pub on_beat: bool,
}

/// The normalized energy of a range in a snapshot, ppm.
pub open spec fn snapshot_energy(s: Snapshot, range: FrequencyRange) -> u32 {
    match range {
        FrequencyRange::Bass => s.bass,
        FrequencyRange::Mid => s.mid,
        FrequencyRange::High => s.high,
        FrequencyRange::Full => s.full,
    }
}

impl Snapshot {
    /// The normalized energy of a range, ppm.
    pub fn energy(&self, range: FrequencyRange) -> (r: u32)
        ensures
            r == snapshot_energy(*self, range),
    {
        match range {
            FrequencyRange::Bass => self.bass,
            FrequencyRange::Mid => self.mid,
            FrequencyRange::High => self.high,
            FrequencyRange::Full => self.full,
        }
    }
}

/// The snapshot that an analyzer in state `a` gives at `now`.
pub open spec fn snapshot_of(a: AnalyzerView, now: u64) -> Snapshot {
    Snapshot {
        bass: normalized_energy(a, FrequencyRange::Bass) as u32,
        mid: normalized_energy(a, FrequencyRange::Mid) as u32,
        high: normalized_energy(a, FrequencyRange::High) as u32,
        full: normalized_energy(a, FrequencyRange::Full) as u32,
        bass_beat: a.bass.beat,
        mid_beat: a.mid.beat,
        high_beat: a.high.beat,
        bpm: a.bpm,
        on_beat: on_beat(a, now),
    }
}

/// Audio spectrum analyzer for LED visualization
pub struct AudioAnalyzer {
    sample_rate: usize,
    samples: VecDeque<i32>,
    bass: BandState,
    mid: BandState,
    high: BandState,
    estimated_bpm: u64,
    beat_timestamps: VecDeque<u64>,
    last_beat_time: u64,
}

impl View for AudioAnalyzer {
    type V = AnalyzerView;

    closed spec fn view(&self) -> AnalyzerView {
        AnalyzerView {
            window: self.samples@,
            bass: self.bass@,
            mid: self.mid@,
            high: self.high@,
            bpm: self.estimated_bpm,
            beat_times: self.beat_timestamps@,
            last_beat: self.last_beat_time,
            sample_rate: self.sample_rate,
        }
    }
}

impl AudioAnalyzer {
    /// A new analyzer for audio sampled at `sample_rate` Hz: empty window,
    /// zero energies, maxima at 0.01, tempo at 120 BPM, no beats.
    pub fn new(sample_rate: usize) -> (r: AudioAnalyzer)
        ensures
            analyzer_wf(r@),
            r@.sample_rate == sample_rate,
            r@.window.len() == 0,
            r@.bass == (BandView {
                energy: 0,
                smoothed: 0,
                max: INITIAL_MAX_ENERGY,
                prev: 0,
                history: Seq::empty(),
                beat: false,
            }),
            r@.mid == r@.bass,
            r@.high == r@.bass,
            r@.bpm == INITIAL_BPM,
            r@.beat_times.len() == 0,
            r@.last_beat == 0,
    {
        AudioAnalyzer {
            sample_rate,
            samples: VecDeque::new(),
            bass: BandState::new(),
            mid: BandState::new(),
            high: BandState::new(),
            estimated_bpm: INITIAL_BPM,
            beat_timestamps: VecDeque::new(),
            last_beat_time: 0,
        }
    }

    /// Sample rate of the analyzed audio, in Hz.
    pub fn sample_rate(&self) -> (r: usize)
        ensures
            r == self@.sample_rate,
    {
        self.sample_rate
    }

    /// Appends a sample to the window, evicting the oldest when it is full.
    pub fn add_sample(&mut self, sample: i32)
        requires
            analyzer_wf(old(self)@),
        ensures
            analyzer_wf(final(self)@),
            final(self)@ == (AnalyzerView { window: slid(old(self)@.window, sample), ..old(self)@ }),
    {
        self.samples.push_back(sample);
        if self.samples.len() > WINDOW_SIZE {
            self.samples.pop_front();
        }
    }

    /// Number of samples in the window.
    pub fn window_len(&self) -> (r: usize)
        ensures
            r == self@.window.len(),
    {
        self.samples.len()
    }

    /// Whether the window is full, so that an analysis tick does work.
    pub fn is_ready(&self) -> (r: bool)
        ensures
            r == (self@.window.len() >= WINDOW_SIZE),
    {
        self.samples.len() >= WINDOW_SIZE
    }

    /// The samples of the window, oldest first.
    pub fn samples(&self) -> (r: Vec<i32>)
        ensures
            r@ == self@.window,
    {
        let mut r: Vec<i32> = Vec::new();
        let mut i: usize = 0;
        while i < self.samples.len()
            invariant
                i <= self.samples@.len(),
                r@ == self.samples@.take(i as int),
            decreases self.samples@.len() - i,
        {
            r.push(self.samples[i]);
            i = i + 1;
            proof {
                assert(r@ =~= self.samples@.take(i as int));
            }
        }
        proof {
            assert(self.samples@.take(self.samples@.len() as int) =~= self.samples@);
        }
        r
    }

    /// Records a bass beat at `now` into the tempo state.
    fn record_bass_beat(&mut self, now: u64)
        requires
            analyzer_wf(old(self)@),
        ensures
            final(self)@ == after_bass_beat(old(self)@, now),
    {
        if now >= self.last_beat_time && now - self.last_beat_time > REFRACTORY_MS {
            self.last_beat_time = now;
            self.beat_timestamps.push_back(now);
            let ghost pushed = self.beat_timestamps@;
            while self.beat_timestamps.len() > 0 && now >= self.beat_timestamps[0] && now
                - self.beat_timestamps[0] > TEMPO_WINDOW_MS
                invariant
                    evict(self.beat_timestamps@, now) == evict(pushed, now),
                    self.last_beat_time == now,
                    self.estimated_bpm == old(self).estimated_bpm,
                    self.sample_rate == old(self).sample_rate,
                    self.samples@ == old(self).samples@,
                    self.bass@ == old(self).bass@,
                    self.mid@ == old(self).mid@,
                    self.high@ == old(self).high@,
                decreases self.beat_timestamps@.len(),
            {
                proof {
                    assert(self.beat_timestamps@.drop_first() =~= self.beat_timestamps@.subrange(
                        1,
                        self.beat_timestamps@.len() as int,
                    ));
                }
                self.beat_timestamps.pop_front();
            }
            let len = self.beat_timestamps.len();
            if len >= 4 {
                let first = self.beat_timestamps[0];
                let last = self.beat_timestamps[len - 1];
                if last > first {
                    let n = (len - 1) as u128;
                    let span = (last - first) as u128;
                    if 60 * span <= 60_000 * n && 60_000 * n <= 200 * span {
                        let inst = n * 60_000_000 / span;
                        proof {
                            lemma_div_multiples_vanish(200_000, span as int);
                            lemma_div_is_ordered(n * 60_000_000, span * 200_000, span as int);
                        }
                        self.estimated_bpm = ((7 * (self.estimated_bpm as u128) + 3 * inst) / 10) as u64;
                    }
                }
            }
        }
    }

    /// Runs one analysis tick at time `now` (ms) on `bins`, the magnitude
    /// spectrum of the current window. Does nothing while the window is not
    /// yet full. Otherwise measures the three bands, updates maxima and
    /// smoothed energies, detects beats and updates the tempo estimate.
    pub fn analyze(&mut self, bins: &Vec<SpectrumBin>, now: u64)
        requires
            analyzer_wf(old(self)@),
        ensures
            analyzer_wf(final(self)@),
            final(self)@ == analyzed(old(self)@, bins@, now),
    {
        proof {
            lemma_analyzed_wf(self@, bins@, now);
        }
        if self.samples.len() < WINDOW_SIZE {
            return ;
        }
        if let Some(e) = measure_band(bins, BASS_LOW_MHZ, BASS_HIGH_MHZ) {
            self.bass.absorb(e);
        }
        if let Some(e) = measure_band(bins, MID_LOW_MHZ, MID_HIGH_MHZ) {
            self.mid.absorb(e);
        }
        if let Some(e) = measure_band(bins, HIGH_LOW_MHZ, HIGH_HIGH_MHZ) {
            self.high.absorb(e);
        }
        let bass_beat = self.bass.detect(BASS_THRESHOLD, now, self.last_beat_time);
        if bass_beat {
            self.record_bass_beat(now);
        }
        self.mid.detect(MID_THRESHOLD, now, self.last_beat_time);
        self.high.detect(HIGH_THRESHOLD, now, self.last_beat_time);
    }

    /// Estimated tempo in milli-BPM.
    pub fn get_bpm(&self) -> (r: u64)
        ensures
            r == self@.bpm,
    {
        self.estimated_bpm
    }

    /// Time of the last recorded bass beat, in ms.
    pub fn last_beat_time(&self) -> (r: u64)
        ensures
            r == self@.last_beat,
    {
        self.last_beat_time
    }

    /// Times of the recorded bass beats of the tempo window, oldest first.
    pub fn beat_timestamps(&self) -> (r: Vec<u64>)
        ensures
            r@ == self@.beat_times,
    {
        let mut r: Vec<u64> = Vec::new();
        let mut i: usize = 0;
        while i < self.beat_timestamps.len()
            invariant
                i <= self.beat_timestamps@.len(),
                r@ == self.beat_timestamps@.take(i as int),
            decreases self.beat_timestamps@.len() - i,
        {
            r.push(self.beat_timestamps[i]);
            i = i + 1;
            proof {
                assert(r@ =~= self.beat_timestamps@.take(i as int));
            }
        }
        proof {
            assert(self.beat_timestamps@.take(self.beat_timestamps@.len() as int)
                =~= self.beat_timestamps@);
        }
        r
    }

    /// Whether `now` (ms) lies within 100 ms of a beat boundary of the
    /// estimated tempo, counted from the last bass beat.
    pub fn is_on_beat(&self, now: u64) -> (r: bool)
        ensures
            r == on_beat(self@, now),
    {
        let bpm = self.estimated_bpm as u128;
        if bpm == 0 {
            return false;
        }
        if now < self.last_beat_time {
            return true;
        }
        let d = (now - self.last_beat_time) as u128;
        proof {
            assert(d * bpm <= 0xffff_ffff_ffff_ffffu128 * 0xffff_ffff_ffff_ffffu128)
                by (nonlinear_arith)
                requires
                    d <= 0xffff_ffff_ffff_ffffu128,
                    bpm <= 0xffff_ffff_ffff_ffffu128,
            ;
        }
        let p = (d * bpm) % 60_000_000;
        p < bpm * 100 || p + bpm * 100 > 60_000_000
    }

    /// Normalized smoothed energy of a range, in ppm (0 for a band whose
    /// maximum is 0); the full range is the mean of the three bands.
    pub fn get_normalized_energy(&self, range: FrequencyRange) -> (r: u32)
        requires
            analyzer_wf(self@),
        ensures
            r == normalized_energy(self@, range),
            r <= UNIT,
    {
        match range {
            FrequencyRange::Bass => self.bass.level(),
            FrequencyRange::Mid => self.mid.level(),
            FrequencyRange::High => self.high.level(),
            FrequencyRange::Full => {
                let sum = self.bass.level() as u64 + self.mid.level() as u64
                    + self.high.level() as u64;
                (sum / 3) as u32
            },
        }
    }

    /// Raw energy of a range measured on the last tick, in micro-units; the
    /// full range is the mean of the three bands.
    pub fn get_energy(&self, range: FrequencyRange) -> (r: u64)
        ensures
            r == energy_in(self@, range),
    {
        match range {
            FrequencyRange::Bass => self.bass.energy,
            FrequencyRange::Mid => self.mid.energy,
            FrequencyRange::High => self.high.energy,
            FrequencyRange::Full => {
                let sum = self.bass.energy as u128 + self.mid.energy as u128
                    + self.high.energy as u128;
                (sum / 3) as u64
            },
        }
    }

    /// Whether a beat was detected in the range on the last tick; for the
    /// full range, in any band.
    pub fn is_beat_detected(&self, range: FrequencyRange) -> (r: bool)
        ensures
            r == beat_in(self@, range),
    {
        match range {
            FrequencyRange::Bass => self.bass.beat_detected,
            FrequencyRange::Mid => self.mid.beat_detected,
            FrequencyRange::High => self.high.beat_detected,
            FrequencyRange::Full => self.bass.beat_detected || self.mid.beat_detected
                || self.high.beat_detected,
        }
    }

    /// The analyzer's state at `now` (ms), as the visualization engine reads it.
    pub fn snapshot(&self, now: u64) -> (r: Snapshot)
        requires
            analyzer_wf(self@),
        ensures
            r == snapshot_of(self@, now),
    {
        Snapshot {
            bass: self.get_normalized_energy(FrequencyRange::Bass),
            mid: self.get_normalized_energy(FrequencyRange::Mid),
            high: self.get_normalized_energy(FrequencyRange::High),
            full: self.get_normalized_energy(FrequencyRange::Full),
            bass_beat: self.bass.beat_detected,
            mid_beat: self.mid.beat_detected,
            high_beat: self.high.beat_detected,
            bpm: self.estimated_bpm,
            on_beat: self.is_on_beat(now),
        }
    }
}


/// While the window holds fewer samples than its size, an analysis tick
/// changes nothing.
pub proof fn lemma_cold_start_noop(a: AnalyzerView, bins: Seq<SpectrumBin>, now: u64)
    requires
        a.window.len() < WINDOW_SIZE,
    ensures
        analyzed(a, bins, now) == a,
{
}

/// A normalized energy lies in [0, 1] (ppm) when the energy does not exceed
/// its maximum, and is 0 when the maximum is 0.
pub proof fn lemma_ratio_in_unit(e: u64, m: u64)
    ensures
        m == 0 ==> ratio_ppm(e, m) == 0,
        e <= m ==> 0 <= ratio_ppm(e, m) <= UNIT,
{
    if m > 0 && e <= m {
        lemma_div_multiples_vanish(UNIT as int, m as int);
        lemma_div_is_ordered(e * UNIT, m * UNIT, m as int);
    }
}

/// Every normalized energy of a well-formed analyzer lies in [0, 1] (ppm).
pub proof fn lemma_normalized_in_unit(a: AnalyzerView, range: FrequencyRange)
    requires
        analyzer_wf(a),
    ensures
        0 <= normalized_energy(a, range) <= UNIT,
{
    lemma_ratio_in_unit(a.bass.smoothed, a.bass.max);
    lemma_ratio_in_unit(a.mid.smoothed, a.mid.max);
    lemma_ratio_in_unit(a.high.smoothed, a.high.max);
}

/// Any two bass beats recorded after an analysis tick are more than 200 ms
/// apart.
pub proof fn lemma_recorded_beats_apart(a: AnalyzerView, bins: Seq<SpectrumBin>, now: u64)
    requires
        analyzer_wf(a),
    ensures
        forall|i: int, j: int|
            0 <= i < j < analyzed(a, bins, now).beat_times.len() ==> analyzed(a, bins, now).beat_times[j]
                - analyzed(a, bins, now).beat_times[i] > REFRACTORY_MS,
{
    lemma_analyzed_wf(a, bins, now);
}

/// An analysis tick changes the tempo estimate only by blending in an
/// instantaneous tempo that lies in [60, 200] BPM, computed from the beat
/// times it recorded; any other tick leaves the estimate as it was.
pub proof fn lemma_bpm_changes_only_when_plausible(
    a: AnalyzerView,
    bins: Seq<SpectrumBin>,
    now: u64,
)
    requires
        analyzer_wf(a),
    ensures
        ({
            let r = analyzed(a, bins, now);
            r.bpm == a.bpm || (plausible_tempo(r.beat_times) && MIN_BPM <= instant_bpm(r.beat_times)
                <= MAX_BPM && r.bpm == blend_bpm(a.bpm, instant_bpm(r.beat_times)))
        }),
{
    let r = analyzed(a, bins, now);
    lemma_plausible_tempo_range(r.beat_times);
}


/// Eviction keeps the newest beat time when it is `now`.
proof fn lemma_evict_keeps_now(ts: Seq<u64>, now: u64)
    requires
        ts.len() > 0,
        ts.last() == now,
    ensures
        evict(ts, now).len() > 0,
        evict(ts, now).last() == now,
    decreases ts.len(),
{
    if ts.len() > 0 && now - ts[0] > TEMPO_WINDOW_MS {
        assert(ts.len() > 1);
        assert(ts.drop_first().last() == now);
        lemma_evict_keeps_now(ts.drop_first(), now);
    }
}

/// Every band's running maximum stays positive across an analysis tick, so
/// normalization never divides by zero.
pub proof fn lemma_maxima_stay_positive(a: AnalyzerView, bins: Seq<SpectrumBin>, now: u64)
    requires
        analyzer_wf(a),
    ensures
        analyzed(a, bins, now).bass.max > 0,
        analyzed(a, bins, now).mid.max > 0,
        analyzed(a, bins, now).high.max > 0,
{
    lemma_analyzed_wf(a, bins, now);
}

/// On a tick that runs (full window), a bass beat more than 200 ms after the
/// last recorded one is recorded at `now`: it becomes the last beat time and
/// the newest entry of the tempo window. Otherwise neither changes.
pub proof fn lemma_bass_beat_recording(a: AnalyzerView, bins: Seq<SpectrumBin>, now: u64)
    requires
        analyzer_wf(a),
        a.window.len() >= WINDOW_SIZE,
    ensures
        ({
            let r = analyzed(a, bins, now);
            if r.bass.beat && now - a.last_beat > REFRACTORY_MS {
                &&& r.last_beat == now
                &&& r.beat_times.len() > 0
                &&& r.beat_times.last() == now
            } else {
                &&& r.last_beat == a.last_beat
                &&& r.beat_times == a.beat_times
            }
        }),
{
    let r = analyzed(a, bins, now);
    if r.bass.beat && now - a.last_beat > REFRACTORY_MS {
        lemma_evict_keeps_now(a.beat_times.push(now), now);
    }
}

} // verus!
