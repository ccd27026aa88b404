//! Visualization engine: a pure function from an analysis snapshot and the
//! configuration to a color/brightness/effect decision.
//!
//! Energies and sensitivity are in ppm (1.0 is `UNIT`). Scaled values are
//! truncated toward zero and saturate at 255 on the way to a channel, as a
//! float-to-byte conversion does.
use crate::analyzer::{FrequencyRange, Snapshot, UNIT};
use crate::effects::{
    BLINK_ALL, CROSSFADE_BLUE, CROSSFADE_GREEN, CROSSFADE_RED, CROSSFADE_RED_GREEN_BLUE,
    CROSSFADE_WHITE, JUMP_ALL, JUMP_RED_GREEN_BLUE,
};
use vstd::prelude::*;

verus! {

/// ppm squared: the scale of a product of two ppm values.
pub const PPM2: u128 = 1_000_000_000_000;

/// ppm cubed: the scale of a product of three ppm values.
pub const PPM3: u128 = 1_000_000_000_000_000_000;

/// Visualization modes for audio monitoring
#[derive(Debug, Clone, Copy, PartialEq, Eq)]
pub enum VisualizationMode {
    /// Frequencies map to colors (bass=red, mid=green, high=blue)
    FrequencyColor,
    /// Sound energy controls brightness
    EnergyBrightness,
    /// Beat detection triggers effects
    BeatEffects,
    /// Spectral flow pattern
    SpectralFlow,
    /// Enhanced frequency color mapping (warm for bass, cool for highs)
    EnhancedFrequencyColor,
    /// BPM synchronized effects
    BpmSync,
}

/// Audio visualization settings
#[derive(Debug, Clone, Copy, PartialEq, Eq)]
pub struct AudioVisualization {
    /// Which frequency range to monitor
    pub range: FrequencyRange,
    /// How to visualize audio
    pub mode: VisualizationMode,
    /// Audio volume sensitivity in ppm (0 to 1_000_000; larger values count as 1_000_000)
    pub sensitivity: u32,
    /// Whether bass beats trigger effects
    pub bass_color_trigger: bool,
    /// Whether mid beats trigger effects
    pub mid_brightness_trigger: bool,
    /// Whether high beats trigger effects
    pub high_effect_trigger: bool,
    /// Minimum time between visualization updates (ms)
    pub update_interval_ms: u32,
    /// Whether decisions are published to the fixture
    pub active: bool,
}

impl Default for AudioVisualization {
    fn default() -> (r: Self)
        ensures
            r == (AudioVisualization {
                range: FrequencyRange::Full,
                mode: VisualizationMode::FrequencyColor,
                sensitivity: 700_000,
                bass_color_trigger: true,
                mid_brightness_trigger: true,
                high_effect_trigger: true,
                update_interval_ms: 50,
                active: false,
            }),
    {
        AudioVisualization {
            range: FrequencyRange::Full,
            mode: VisualizationMode::FrequencyColor,
            sensitivity: 700_000,
            bass_color_trigger: true,
            mid_brightness_trigger: true,
            high_effect_trigger: true,
            update_interval_ms: 50,
            active: false,
        }
    }
}

/// One visualization decision: a color, a brightness and an optional effect.
#[derive(Debug, Clone, Copy, PartialEq, Eq)]
pub struct AudioColor {
    pub r: u8,
    pub g: u8,
    pub b: u8,
    /// Brightness in percent (0-100)
    pub brightness: u8,
    /// Effect code, when an effect replaces the static color
    pub effect: Option<u8>,
}

/// The decision every mode starts from: black, full brightness, no effect.
pub open spec fn blank() -> AudioColor {
    AudioColor { r: 0, g: 0, b: 0, brightness: 100, effect: None }
}

impl Default for AudioColor {
    fn default() -> (r: Self)
        ensures
            r == blank(),
    {
        AudioColor { r: 0, g: 0, b: 0, brightness: 100, effect: None }
    }
}

/// Time-driven oscillators of the spectral flow mode, each in ppm
/// (`sin(x) * 0.5 + 0.5`): `pulse` at `t * 0.5`, the phases at `t * 0.7`,
/// `t * 0.7 + 2` and `t * 0.7 + 4` for `t` the time in seconds.
#[derive(Debug, Clone, Copy, PartialEq, Eq)]
pub struct FlowWaves {
    pub pulse: u32,
    pub bass_phase: u32,
    pub mid_phase: u32,
    pub high_phase: u32,
}

/// A non-negative value truncated into a channel, saturating at 255.
pub open spec fn sat8(x: int) -> u8 {
    if x >= 255 {
        255
    } else if x <= 0 {
        0
    } else {
        x as u8
    }
}

pub open spec fn sat_add(a: u8, b: u8) -> u8 {
    sat8(a + b)
}

pub open spec fn at_least(x: u8, lo: u8) -> u8 {
    if x < lo {
        lo
    } else {
        x
    }
}

/// A brightness clamped into `[lo, 100]`.
pub open spec fn clamp_pct(x: int, lo: u8) -> u8 {
    if x < lo {
        lo
    } else if x > 100 {
        100
    } else {
        x as u8
    }
}

/// Sensitivity in ppm, clamped into [0, 1].
pub open spec fn sens(c: AudioVisualization) -> int {
    if c.sensitivity > UNIT {
        UNIT as int
    } else {
        c.sensitivity as int
    }
}

pub open spec fn rgb(r: u8, g: u8, b: u8, brightness: u8, effect: Option<u8>) -> AudioColor {
    AudioColor { r, g, b, brightness, effect }
}

/// Bass, mid and high energies to red, green and blue; each channel at least
/// 10 while the full-range energy exceeds 0.05. The brightness stays that of
/// the blank decision.
pub open spec fn frequency_color(sn: Snapshot, s: int) -> AudioColor {
    let r = sat8(255 * sn.bass * s / PPM2 as int);
    let g = sat8(255 * sn.mid * s / PPM2 as int);
    let b = sat8(255 * sn.high * s / PPM2 as int);
    if sn.full > 50_000 {
        rgb(at_least(r, 10), at_least(g, 10), at_least(b, 10), 100, None)
    } else {
        rgb(r, g, b, 100, None)
    }
}

/// Pure red, green or blue for a band that exceeds the two others and 0.1,
/// else white; brightness from the full-range energy, at least 5.
pub open spec fn energy_brightness(sn: Snapshot, s: int) -> AudioColor {
    let brightness = clamp_pct(100 * sn.full * s / PPM2 as int, 5);
    if sn.bass > sn.mid && sn.bass > sn.high && sn.bass > 100_000 {
        rgb(255, 0, 0, brightness, None)
    } else if sn.mid > sn.bass && sn.mid > sn.high && sn.mid > 100_000 {
        rgb(0, 255, 0, brightness, None)
    } else if sn.high > sn.bass && sn.high > sn.mid && sn.high > 100_000 {
        rgb(0, 0, 255, brightness, None)
    } else {
        rgb(255, 255, 255, brightness, None)
    }
}

/// A crossfade in the color of the first band (bass, mid, high) with a beat
/// and its trigger on, else white without effect; brightness at least 20.
pub open spec fn beat_effects(sn: Snapshot, c: AudioVisualization, s: int) -> AudioColor {
    let brightness = clamp_pct(100 * sn.full * s / PPM2 as int, 20);
    if sn.bass_beat && c.bass_color_trigger {
        rgb(255, 0, 0, brightness, Some(CROSSFADE_RED))
    } else if sn.mid_beat && c.mid_brightness_trigger {
        rgb(0, 255, 0, brightness, Some(CROSSFADE_GREEN))
    } else if sn.high_beat && c.high_effect_trigger {
        rgb(0, 0, 255, brightness, Some(CROSSFADE_BLUE))
    } else {
        rgb(255, 255, 255, brightness, None)
    }
}

/// Weighted energy `0.5 bass + 0.3 mid + 0.2 high`, in tenths of ppm.
pub open spec fn flow_energy(sn: Snapshot) -> int {
    5 * sn.bass + 3 * sn.mid + 2 * sn.high
}

/// A slow blue-leaning pulse when quiet; an all-color jump (over the black
/// of the blank decision) on a strong bass beat; else colors modulated by the
/// phases and the band energies.
pub open spec fn spectral_flow(sn: Snapshot, w: FlowWaves, s: int) -> AudioColor {
    let energy = flow_energy(sn);
    let brightness = clamp_pct(100 * energy * s / (10 * PPM2) as int, 20);
    if energy < 500_000 {
        let v = sat8(50 * w.pulse / UNIT as int);
        rgb(v, v, sat8(80 * w.pulse / UNIT as int), brightness, Some(CROSSFADE_RED_GREEN_BLUE))
    } else if sn.bass_beat && sn.bass > 700_000 {
        rgb(0, 0, 0, brightness, Some(JUMP_ALL))
    } else {
        rgb(
            sat8(255 * w.bass_phase * sn.bass * s / PPM3 as int),
            sat8(255 * w.mid_phase * sn.mid * s / PPM3 as int),
            sat8(255 * w.high_phase * sn.high * s / PPM3 as int),
            brightness,
            Some(CROSSFADE_RED_GREEN_BLUE),
        )
    }
}

/// The additive warm/cool color mix, before the floor and the overrides.
pub open spec fn enhanced_mix(sn: Snapshot, s: int) -> (u8, u8, u8) {
    let bass_on = sn.bass > 50_000;
    let mid_on = sn.mid > 50_000;
    let high_on = sn.high > 50_000;
    let r0: u8 = if bass_on { sat8(255 * sn.bass * s / PPM2 as int) } else { 0 };
    let g0: u8 = if bass_on { sat8(150 * sn.bass * sn.bass * s / PPM3 as int) } else { 0 };
    let g1: u8 = if mid_on { sat_add(g0, sat8(255 * sn.mid * s / PPM2 as int)) } else { g0 };
    let b1: u8 = if mid_on { sat8(100 * sn.mid * sn.mid * s / PPM3 as int) } else { 0 };
    let tint = sat8(180 * sn.high * sn.high * s / PPM3 as int);
    let r2: u8 = if high_on { sat_add(r0, tint) } else { r0 };
    let g2: u8 = if high_on { sat_add(g1, tint) } else { g1 };
    let b2: u8 = if high_on { sat_add(b1, sat8(255 * sn.high * s / PPM2 as int)) } else { b1 };
    (r2, g2, b2)
}

/// Warm tones for bass, green-cyan for mids, blue-white for highs, mixed
/// additively; amber when bass dominates strongly, light blue when highs do.
pub open spec fn enhanced_frequency_color(sn: Snapshot, s: int) -> AudioColor {
    let (r, g, b) = enhanced_mix(sn, s);
    let lit = sn.full > 50_000;
    let r1 = if lit { at_least(r, 10) } else { r };
    let g1 = if lit { at_least(g, 10) } else { g };
    let b1 = if lit { at_least(b, 10) } else { b };
    let brightness = clamp_pct(100 * sn.full * s / PPM2 as int, 20);
    if sn.high > 700_000 && 2 * sn.high > 3 * sn.mid && sn.high > 2 * sn.bass {
        rgb(
            sat8(210 * sn.high * s / PPM2 as int),
            sat8(220 * sn.high * s / PPM2 as int),
            255,
            brightness,
            None,
        )
    } else if sn.bass > 700_000 && 2 * sn.bass > 3 * sn.mid && sn.bass > 2 * sn.high {
        rgb(255, sat8(120 * sn.bass * s / PPM2 as int), 0, brightness, None)
    } else {
        rgb(r1, g1, b1, brightness, None)
    }
}

/// Brightness of the tempo mode: `max(60 s, 20)`, plus `40 s` (at most 100
/// in all) on the beat.
pub open spec fn bpm_brightness(on_beat: bool, s: int) -> u8 {
    let base = if 60 * s / UNIT as int > 20 { 60 * s / UNIT as int } else { 20 };
    let pulse = 40 * s / UNIT as int;
    if on_beat {
        if base + pulse > 100 { 100 } else { (base + pulse) as u8 }
    } else {
        base as u8
    }
}

/// Effects that follow the estimated tempo: slow (under 70 BPM), medium
/// (under 120 BPM) and fast. The base color is the band energies times 1.2,
/// 1.1 and 1.2.
pub open spec fn bpm_sync(sn: Snapshot, s: int) -> AudioColor {
    let r = sat8(3060 * sn.bass * s / (10 * PPM2) as int);
    let g = sat8(2805 * sn.mid * s / (10 * PPM2) as int);
    let b = sat8(3060 * sn.high * s / (10 * PPM2) as int);
    let on = sn.on_beat;
    let bb = sn.bass_beat;
    let brightness = bpm_brightness(on, s);
    if sn.bpm < 70_000 {
        if on && bb {
            rgb(255, (g * 7 / 10) as u8, (b * 6 / 10) as u8, brightness, Some(CROSSFADE_RED))
        } else {
            rgb(r, g, b, brightness, Some(CROSSFADE_RED_GREEN_BLUE))
        }
    } else if sn.bpm < 120_000 {
        if on && bb {
            rgb(255, 40, 0, brightness, Some(JUMP_RED_GREEN_BLUE))
        } else if on {
            rgb(255, 255, 255, brightness, Some(CROSSFADE_WHITE))
        } else {
            rgb(r, g, b, brightness, None)
        }
    } else {
        if on && bb {
            rgb(255, 255, 255, brightness, Some(JUMP_ALL))
        } else if on {
            rgb(r, g, b, brightness, Some(BLINK_ALL))
        } else {
            rgb((r * 7 / 10) as u8, (g * 7 / 10) as u8, (b * 7 / 10) as u8, brightness, None)
        }
    }
}

/// The decision for a snapshot under a configuration.
pub open spec fn decision_of(sn: Snapshot, c: AudioVisualization, w: FlowWaves) -> AudioColor {
    let s = sens(c);
    match c.mode {
        VisualizationMode::FrequencyColor => frequency_color(sn, s),
        VisualizationMode::EnergyBrightness => energy_brightness(sn, s),
        VisualizationMode::BeatEffects => beat_effects(sn, c, s),
        VisualizationMode::SpectralFlow => spectral_flow(sn, w, s),
        VisualizationMode::EnhancedFrequencyColor => enhanced_frequency_color(sn, s),
        VisualizationMode::BpmSync => bpm_sync(sn, s),
    }
}


/// `k * x * s`, exactly.
fn lin(k: u128, x: u128, s: u128) -> (r: u128)
    requires
        k <= 0x10_0000,
        x <= 0x100_0000_0000,
        s <= 0x10_0000,
    ensures
        r == k * x * s,
{
    proof {
        assert(k * x <= 0x10_0000 * 0x100_0000_0000) by (nonlinear_arith)
            requires
                k <= 0x10_0000,
                x <= 0x100_0000_0000,
        ;
        assert(k * x * s <= 0x10_0000 * 0x100_0000_0000 * 0x10_0000) by (nonlinear_arith)
            requires
                k * x <= 0x10_0000 * 0x100_0000_0000,
                s <= 0x10_0000,
        ;
    }
    k * x * s
}

/// `k * x * y * s`, exactly.
fn quad(k: u128, x: u128, y: u128, s: u128) -> (r: u128)
    requires
        k <= 0x10_0000,
        x <= 0xffff_ffff,
        y <= 0xffff_ffff,
        s <= 0x10_0000,
    ensures
        r == k * x * y * s,
{
    proof {
        assert(k * x <= 0x10_0000 * 0xffff_ffff) by (nonlinear_arith)
            requires
                k <= 0x10_0000,
                x <= 0xffff_ffff,
        ;
        assert(k * x * y <= 0x10_0000 * 0xffff_ffff * 0xffff_ffff) by (nonlinear_arith)
            requires
                k * x <= 0x10_0000 * 0xffff_ffff,
                y <= 0xffff_ffff,
        ;
        assert(k * x * y * s <= 0x10_0000 * 0xffff_ffff * 0xffff_ffff * 0x10_0000)
            by (nonlinear_arith)
            requires
                k * x * y <= 0x10_0000 * 0xffff_ffff * 0xffff_ffff,
                s <= 0x10_0000,
        ;
    }
    k * x * y * s
}

/// `num / den` as a channel.
fn channel(num: u128, den: u128) -> (r: u8)
    requires
        den > 0,
    ensures
        r == sat8(num as int / den as int),
{
    let q = num / den;
    if q >= 255 {
        255
    } else {
        q as u8
    }
}

fn add_channels(a: u8, b: u8) -> (r: u8)
    ensures
        r == sat_add(a, b),
{
    let t = a as u16 + b as u16;
    if t >= 255 {
        255
    } else {
        t as u8
    }
}

fn floor_at(x: u8, lo: u8) -> (r: u8)
    ensures
        r == at_least(x, lo),
{
    if x < lo {
        lo
    } else {
        x
    }
}

/// `num / den` as a brightness clamped into `[lo, 100]`.
fn percent(num: u128, den: u128, lo: u8) -> (r: u8)
    requires
        den > 0,
        lo <= 100,
    ensures
        r == clamp_pct(num as int / den as int, lo),
{
    let q = num / den;
    if q < lo as u128 {
        lo
    } else if q > 100 {
        100
    } else {
        q as u8
    }
}

fn make(r: u8, g: u8, b: u8, brightness: u8, effect: Option<u8>) -> (c: AudioColor)
    ensures
        c == rgb(r, g, b, brightness, effect),
{
    AudioColor { r, g, b, brightness, effect }
}

fn decide_frequency_color(sn: &Snapshot, s: u128) -> (r: AudioColor)
    requires
        s <= UNIT,
    ensures
        r == frequency_color(*sn, s as int),
{
    let r = channel(lin(255, sn.bass as u128, s), PPM2);
    let g = channel(lin(255, sn.mid as u128, s), PPM2);
    let b = channel(lin(255, sn.high as u128, s), PPM2);
    if sn.full > 50_000 {
        make(floor_at(r, 10), floor_at(g, 10), floor_at(b, 10), 100, None)
    } else {
        make(r, g, b, 100, None)
    }
}

fn decide_energy_brightness(sn: &Snapshot, s: u128) -> (r: AudioColor)
    requires
        s <= UNIT,
    ensures
        r == energy_brightness(*sn, s as int),
{
    let brightness = percent(lin(100, sn.full as u128, s), PPM2, 5);
    if sn.bass > sn.mid && sn.bass > sn.high && sn.bass > 100_000 {
        make(255, 0, 0, brightness, None)
    } else if sn.mid > sn.bass && sn.mid > sn.high && sn.mid > 100_000 {
        make(0, 255, 0, brightness, None)
    } else if sn.high > sn.bass && sn.high > sn.mid && sn.high > 100_000 {
        make(0, 0, 255, brightness, None)
    } else {
        make(255, 255, 255, brightness, None)
    }
}

fn decide_beat_effects(sn: &Snapshot, c: &AudioVisualization, s: u128) -> (r: AudioColor)
    requires
        s <= UNIT,
    ensures
        r == beat_effects(*sn, *c, s as int),
{
    let brightness = percent(lin(100, sn.full as u128, s), PPM2, 20);
    if sn.bass_beat && c.bass_color_trigger {
        make(255, 0, 0, brightness, Some(CROSSFADE_RED))
    } else if sn.mid_beat && c.mid_brightness_trigger {
        make(0, 255, 0, brightness, Some(CROSSFADE_GREEN))
    } else if sn.high_beat && c.high_effect_trigger {
        make(0, 0, 255, brightness, Some(CROSSFADE_BLUE))
    } else {
        make(255, 255, 255, brightness, None)
    }
}

fn decide_spectral_flow(sn: &Snapshot, w: &FlowWaves, s: u128) -> (r: AudioColor)
    requires
        s <= UNIT,
    ensures
        r == spectral_flow(*sn, *w, s as int),
{
    let energy = 5 * (sn.bass as u128) + 3 * (sn.mid as u128) + 2 * (sn.high as u128);
    let brightness = percent(lin(100, energy, s), 10 * PPM2, 20);
    if energy < 500_000 {
        let v = channel(50 * (w.pulse as u128), UNIT as u128);
        make(v, v, channel(80 * (w.pulse as u128), UNIT as u128), brightness, Some(CROSSFADE_RED_GREEN_BLUE))
    } else if sn.bass_beat && sn.bass > 700_000 {
        make(0, 0, 0, brightness, Some(JUMP_ALL))
    } else {
        make(
            channel(quad(255, w.bass_phase as u128, sn.bass as u128, s), PPM3),
            channel(quad(255, w.mid_phase as u128, sn.mid as u128, s), PPM3),
            channel(quad(255, w.high_phase as u128, sn.high as u128, s), PPM3),
            brightness,
            Some(CROSSFADE_RED_GREEN_BLUE),
        )
    }
}

fn enhanced_mix_of(sn: &Snapshot, s: u128) -> (r: (u8, u8, u8))
    requires
        s <= UNIT,
    ensures
        r == enhanced_mix(*sn, s as int),
{
    let bass = sn.bass as u128;
    let mid = sn.mid as u128;
    let high = sn.high as u128;
    let bass_on = sn.bass > 50_000;
    let mid_on = sn.mid > 50_000;
    let high_on = sn.high > 50_000;
    let r0: u8 = if bass_on { channel(lin(255, bass, s), PPM2) } else { 0 };
    let g0: u8 = if bass_on { channel(quad(150, bass, bass, s), PPM3) } else { 0 };
    let g1: u8 = if mid_on { add_channels(g0, channel(lin(255, mid, s), PPM2)) } else { g0 };
    let b1: u8 = if mid_on { channel(quad(100, mid, mid, s), PPM3) } else { 0 };
    let tint = channel(quad(180, high, high, s), PPM3);
    let r2: u8 = if high_on { add_channels(r0, tint) } else { r0 };
    let g2: u8 = if high_on { add_channels(g1, tint) } else { g1 };
    let b2: u8 = if high_on { add_channels(b1, channel(lin(255, high, s), PPM2)) } else { b1 };
    (r2, g2, b2)
}

fn decide_enhanced(sn: &Snapshot, s: u128) -> (r: AudioColor)
    requires
        s <= UNIT,
    ensures
        r == enhanced_frequency_color(*sn, s as int),
{
    let (r, g, b) = enhanced_mix_of(sn, s);
    let lit = sn.full > 50_000;
    let r1 = if lit { floor_at(r, 10) } else { r };
    let g1 = if lit { floor_at(g, 10) } else { g };
    let b1 = if lit { floor_at(b, 10) } else { b };
    let brightness = percent(lin(100, sn.full as u128, s), PPM2, 20);
    let bass = sn.bass as u128;
    let mid = sn.mid as u128;
    let high = sn.high as u128;
    if high > 700_000 && 2 * high > 3 * mid && high > 2 * bass {
        make(channel(lin(210, high, s), PPM2), channel(lin(220, high, s), PPM2), 255, brightness, None)
    } else if bass > 700_000 && 2 * bass > 3 * mid && bass > 2 * high {
        make(255, channel(lin(120, bass, s), PPM2), 0, brightness, None)
    } else {
        make(r1, g1, b1, brightness, None)
    }
}

fn tempo_brightness(on_beat: bool, s: u128) -> (r: u8)
    requires
        s <= UNIT,
    ensures
        r == bpm_brightness(on_beat, s as int),
{
    let scaled = 60 * s / (UNIT as u128);
    let base = if scaled > 20 { scaled } else { 20 };
    let pulse = 40 * s / (UNIT as u128);
    if on_beat {
        if base + pulse > 100 { 100 } else { (base + pulse) as u8 }
    } else {
        base as u8
    }
}

fn decide_bpm_sync(sn: &Snapshot, s: u128) -> (r: AudioColor)
    requires
        s <= UNIT,
    ensures
        r == bpm_sync(*sn, s as int),
{
    let r = channel(lin(3060, sn.bass as u128, s), 10 * PPM2);
    let g = channel(lin(2805, sn.mid as u128, s), 10 * PPM2);
    let b = channel(lin(3060, sn.high as u128, s), 10 * PPM2);
    let on = sn.on_beat;
    let bb = sn.bass_beat;
    let brightness = tempo_brightness(on, s);
    if sn.bpm < 70_000 {
        if on && bb {
            make(255, (g as u16 * 7 / 10) as u8, (b as u16 * 6 / 10) as u8, brightness, Some(CROSSFADE_RED))
        } else {
            make(r, g, b, brightness, Some(CROSSFADE_RED_GREEN_BLUE))
        }
    } else if sn.bpm < 120_000 {
        if on && bb {
            make(255, 40, 0, brightness, Some(JUMP_RED_GREEN_BLUE))
        } else if on {
            make(255, 255, 255, brightness, Some(CROSSFADE_WHITE))
        } else {
            make(r, g, b, brightness, None)
        }
    } else {
        if on && bb {
            make(255, 255, 255, brightness, Some(JUMP_ALL))
        } else if on {
            make(r, g, b, brightness, Some(BLINK_ALL))
        } else {
            make(
                (r as u16 * 7 / 10) as u8,
                (g as u16 * 7 / 10) as u8,
                (b as u16 * 7 / 10) as u8,
                brightness,
                None,
            )
        }
    }
}

/// The color, brightness and effect for `snapshot` under `config`, with
/// the spectral flow mode's oscillators `waves`. A pure function: the same
/// arguments always give the same decision.
pub fn decide(snapshot: &Snapshot, config: &AudioVisualization, waves: &FlowWaves) -> (r:
    AudioColor)
    ensures
        r == decision_of(*snapshot, *config, *waves),
{
    let s: u128 = if config.sensitivity as u64 > UNIT {
        UNIT as u128
    } else {
        config.sensitivity as u128
    };
    match config.mode {
        VisualizationMode::FrequencyColor => decide_frequency_color(snapshot, s),
        VisualizationMode::EnergyBrightness => decide_energy_brightness(snapshot, s),
        VisualizationMode::BeatEffects => decide_beat_effects(snapshot, config, s),
        VisualizationMode::SpectralFlow => decide_spectral_flow(snapshot, waves, s),
        VisualizationMode::EnhancedFrequencyColor => decide_enhanced(snapshot, s),
        VisualizationMode::BpmSync => decide_bpm_sync(snapshot, s),
    }
}

/// Deciding twice on the same snapshot, configuration and oscillators gives
/// the same decision: the engine holds no state of its own.
pub proof fn lemma_decide_deterministic(
    sn1: Snapshot,
    c1: AudioVisualization,
    w1: FlowWaves,
    sn2: Snapshot,
    c2: AudioVisualization,
    w2: FlowWaves,
)
    requires
        sn1 == sn2,
        c1 == c2,
        w1 == w2,
    ensures
        decision_of(sn1, c1, w1) == decision_of(sn2, c2, w2),
{
}

} // verus!
