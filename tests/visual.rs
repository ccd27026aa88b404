use elk_led_controller::analyzer::WINDOW_SIZE;
use elk_led_controller::effects::{
    BLINK_ALL, CROSSFADE_BLUE, CROSSFADE_GREEN, CROSSFADE_RED, CROSSFADE_RED_GREEN_BLUE,
    CROSSFADE_WHITE, JUMP_ALL, JUMP_RED_GREEN_BLUE,
};
use elk_led_controller::{
    decide, AudioAnalyzer, AudioColor, AudioVisualization, FlowWaves, FrequencyRange, Snapshot,
    SpectrumBin, VisualizationMode,
};
use spectrum_analyzer::{samples_fft_to_spectrum, FrequencyLimit};

fn quiet() -> Snapshot {
    Snapshot {
        bass: 0,
        mid: 0,
        high: 0,
        full: 0,
        bass_beat: false,
        mid_beat: false,
        high_beat: false,
        bpm: 120_000,
        on_beat: false,
    }
}

fn config(mode: VisualizationMode, sensitivity: u32) -> AudioVisualization {
    AudioVisualization { mode, sensitivity, active: true, ..AudioVisualization::default() }
}

fn waves() -> FlowWaves {
    FlowWaves { pulse: 500_000, bass_phase: 1_000_000, mid_phase: 500_000, high_phase: 0 }
}

#[test]
fn default_configuration() {
    let c = AudioVisualization::default();
    assert_eq!(c.range, FrequencyRange::Full);
    assert_eq!(c.mode, VisualizationMode::FrequencyColor);
    assert_eq!(c.sensitivity, 700_000);
    assert!(c.bass_color_trigger && c.mid_brightness_trigger && c.high_effect_trigger);
    assert_eq!(c.update_interval_ms, 50);
    assert!(!c.active);
    let d = AudioColor::default();
    assert_eq!(d, AudioColor { r: 0, g: 0, b: 0, brightness: 100, effect: None });
}

#[test]
fn frequency_color_scales_each_band() {
    let s = Snapshot { bass: 500_000, mid: 200_000, high: 0, full: 233_333, ..quiet() };
    let d = decide(&s, &config(VisualizationMode::FrequencyColor, 700_000), &waves());
    // 0.5 * 255 * 0.7 = 89.25, 0.2 * 255 * 0.7 = 35.7, blue raised to 10
    assert_eq!(d, AudioColor { r: 89, g: 35, b: 10, brightness: 100, effect: None });
}

#[test]
fn frequency_color_quiet_has_no_floor() {
    let s = Snapshot { bass: 40_000, full: 13_333, ..quiet() };
    let d = decide(&s, &config(VisualizationMode::FrequencyColor, 1_000_000), &waves());
    assert_eq!(d, AudioColor { r: 10, g: 0, b: 0, brightness: 100, effect: None });
}

#[test]
fn sensitivity_above_one_counts_as_one() {
    let s = Snapshot { bass: 1_000_000, ..quiet() };
    let d = decide(&s, &config(VisualizationMode::FrequencyColor, 3_000_000), &waves());
    assert_eq!(d.r, 255);
}

#[test]
fn energy_brightness_half_energy_gives_half_brightness() {
    let s = Snapshot { bass: 500_000, mid: 500_000, high: 500_000, full: 500_000, ..quiet() };
    let d = decide(&s, &config(VisualizationMode::EnergyBrightness, 1_000_000), &waves());
    assert_eq!(d.brightness, 50);
    assert_eq!((d.r, d.g, d.b), (255, 255, 255));
    assert_eq!(d.effect, None);
}

#[test]
fn energy_brightness_dominant_band_and_floor() {
    let s = Snapshot { mid: 300_000, bass: 100_000, full: 10_000, ..quiet() };
    let d = decide(&s, &config(VisualizationMode::EnergyBrightness, 1_000_000), &waves());
    assert_eq!(d, AudioColor { r: 0, g: 255, b: 0, brightness: 5, effect: None });
    let s = Snapshot { high: 100_000, ..quiet() };
    let d = decide(&s, &config(VisualizationMode::EnergyBrightness, 1_000_000), &waves());
    assert_eq!((d.r, d.g, d.b), (255, 255, 255));
}

#[test]
fn beat_effects_bass_beat_wins() {
    let s = Snapshot { bass_beat: true, mid_beat: true, high_beat: true, full: 900_000, ..quiet() };
    let d = decide(&s, &config(VisualizationMode::BeatEffects, 1_000_000), &waves());
    assert_eq!(d, AudioColor { r: 255, g: 0, b: 0, brightness: 90, effect: Some(CROSSFADE_RED) });
    assert_eq!(CROSSFADE_RED, 0x8b);
}

#[test]
fn beat_effects_respects_triggers() {
    let s = Snapshot { bass_beat: true, mid_beat: true, high_beat: true, ..quiet() };
    let mut c = config(VisualizationMode::BeatEffects, 1_000_000);
    c.bass_color_trigger = false;
    let d = decide(&s, &c, &waves());
    assert_eq!(d, AudioColor { r: 0, g: 255, b: 0, brightness: 20, effect: Some(CROSSFADE_GREEN) });
    c.mid_brightness_trigger = false;
    let d = decide(&s, &c, &waves());
    assert_eq!(d.effect, Some(CROSSFADE_BLUE));
    c.high_effect_trigger = false;
    let d = decide(&s, &c, &waves());
    assert_eq!(d, AudioColor { r: 255, g: 255, b: 255, brightness: 20, effect: None });
}

#[test]
fn spectral_flow_pulses_when_quiet() {
    let d = decide(&quiet(), &config(VisualizationMode::SpectralFlow, 1_000_000), &waves());
    assert_eq!(
        d,
        AudioColor { r: 25, g: 25, b: 40, brightness: 20, effect: Some(CROSSFADE_RED_GREEN_BLUE) }
    );
}

#[test]
fn spectral_flow_jumps_on_strong_bass_beat() {
    let s = Snapshot { bass: 800_000, bass_beat: true, ..quiet() };
    let d = decide(&s, &config(VisualizationMode::SpectralFlow, 1_000_000), &waves());
    assert_eq!(d.effect, Some(JUMP_ALL));
    assert_eq!(d.brightness, 40);
}

#[test]
fn spectral_flow_modulates_by_phase() {
    let s = Snapshot { bass: 600_000, mid: 600_000, high: 600_000, ..quiet() };
    let d = decide(&s, &config(VisualizationMode::SpectralFlow, 1_000_000), &waves());
    // phases 1.0, 0.5, 0.0 times 255 * 0.6
    assert_eq!(
        d,
        AudioColor { r: 153, g: 76, b: 0, brightness: 60, effect: Some(CROSSFADE_RED_GREEN_BLUE) }
    );
}

#[test]
fn enhanced_color_mixes_and_saturates() {
    let s = Snapshot { bass: 600_000, mid: 600_000, high: 600_000, full: 600_000, ..quiet() };
    let d = decide(&s, &config(VisualizationMode::EnhancedFrequencyColor, 1_000_000), &waves());
    // r = 153 + 64, g = 54 + 153 + 64 saturates, b = 36 + 153
    assert_eq!(d, AudioColor { r: 217, g: 255, b: 189, brightness: 60, effect: None });
}

#[test]
fn enhanced_color_amber_for_heavy_bass() {
    let s = Snapshot { bass: 900_000, mid: 100_000, high: 100_000, full: 366_666, ..quiet() };
    let d = decide(&s, &config(VisualizationMode::EnhancedFrequencyColor, 1_000_000), &waves());
    assert_eq!(d, AudioColor { r: 255, g: 108, b: 0, brightness: 36, effect: None });
}

#[test]
fn enhanced_color_light_blue_for_heavy_treble() {
    let s = Snapshot { bass: 100_000, mid: 100_000, high: 1_000_000, full: 400_000, ..quiet() };
    let d = decide(&s, &config(VisualizationMode::EnhancedFrequencyColor, 1_000_000), &waves());
    assert_eq!(d, AudioColor { r: 210, g: 220, b: 255, brightness: 40, effect: None });
}

#[test]
fn bpm_sync_slow_on_beat_with_bass() {
    let s = Snapshot { bpm: 50_000, on_beat: true, bass_beat: true, mid: 500_000, ..quiet() };
    let d = decide(&s, &config(VisualizationMode::BpmSync, 1_000_000), &waves());
    // base green 0.5 * 255 * 1.1 = 140, kept at 70 percent
    assert_eq!(d, AudioColor { r: 255, g: 98, b: 0, brightness: 100, effect: Some(CROSSFADE_RED) });
}

#[test]
fn bpm_sync_slow_otherwise_rainbow() {
    let s = Snapshot { bpm: 60_000, bass: 500_000, ..quiet() };
    let d = decide(&s, &config(VisualizationMode::BpmSync, 500_000), &waves());
    // 0.5 * 255 * 0.5 * 1.2 = 76.5; brightness max(30, 20)
    assert_eq!(
        d,
        AudioColor { r: 76, g: 0, b: 0, brightness: 30, effect: Some(CROSSFADE_RED_GREEN_BLUE) }
    );
}

#[test]
fn bpm_sync_medium_tempo() {
    let c = config(VisualizationMode::BpmSync, 1_000_000);
    let s = Snapshot { bpm: 100_000, on_beat: true, bass_beat: true, ..quiet() };
    assert_eq!(
        decide(&s, &c, &waves()),
        AudioColor { r: 255, g: 40, b: 0, brightness: 100, effect: Some(JUMP_RED_GREEN_BLUE) }
    );
    let s = Snapshot { bpm: 100_000, on_beat: true, ..quiet() };
    assert_eq!(decide(&s, &c, &waves()).effect, Some(CROSSFADE_WHITE));
    let s = Snapshot { bpm: 100_000, high: 500_000, ..quiet() };
    assert_eq!(
        decide(&s, &c, &waves()),
        AudioColor { r: 0, g: 0, b: 153, brightness: 60, effect: None }
    );
}

#[test]
fn bpm_sync_fast_tempo() {
    let c = config(VisualizationMode::BpmSync, 1_000_000);
    let s = Snapshot { bpm: 150_000, on_beat: true, bass_beat: true, ..quiet() };
    assert_eq!(
        decide(&s, &c, &waves()),
        AudioColor { r: 255, g: 255, b: 255, brightness: 100, effect: Some(JUMP_ALL) }
    );
    let s = Snapshot { bpm: 150_000, on_beat: true, bass: 1_000_000, ..quiet() };
    assert_eq!(
        decide(&s, &c, &waves()),
        AudioColor { r: 255, g: 0, b: 0, brightness: 100, effect: Some(BLINK_ALL) }
    );
    let s = Snapshot { bpm: 150_000, bass: 1_000_000, ..quiet() };
    assert_eq!(
        decide(&s, &c, &waves()),
        AudioColor { r: 178, g: 0, b: 0, brightness: 60, effect: None }
    );
}

#[test]
fn decide_twice_gives_the_same_decision() {
    let s = Snapshot { bass: 420_000, mid: 10_000, high: 730_000, full: 386_666, bass_beat: true, ..quiet() };
    for mode in [
        VisualizationMode::FrequencyColor,
        VisualizationMode::EnergyBrightness,
        VisualizationMode::BeatEffects,
        VisualizationMode::SpectralFlow,
        VisualizationMode::EnhancedFrequencyColor,
        VisualizationMode::BpmSync,
    ] {
        let c = config(mode, 640_000);
        assert_eq!(decide(&s, &c, &waves()), decide(&s, &c, &waves()));
    }
}

#[test]
fn hundred_hertz_tone_makes_red_dominant() {
    let rate = 44_100usize;
    let mut a = AudioAnalyzer::new(rate);
    for i in 0..WINDOW_SIZE {
        let t = i as f32 / rate as f32;
        let x = (2.0 * std::f32::consts::PI * 100.0 * t).sin() * 0.001;
        a.add_sample((x * 1e6) as i32);
    }
    let floats: Vec<f32> = a.samples().iter().map(|&s| s as f32 / 1e6).collect();
    let spectrum = samples_fft_to_spectrum(&floats, rate as u32, FrequencyLimit::Range(20.0, 20000.0), None)
        .unwrap();
    let bins: Vec<SpectrumBin> = spectrum
        .data()
        .iter()
        .map(|(f, m)| SpectrumBin {
            frequency_mhz: (f.val() as f64 * 1000.0) as u64,
            magnitude: (m.val() as f64 * 1e6) as u64,
        })
        .collect();
    let c = config(VisualizationMode::FrequencyColor, 700_000);
    for k in 0..4u64 {
        let now = 1_000 + 50 * k;
        a.analyze(&bins, now);
        let d = decide(&a.snapshot(now), &c, &waves());
        assert!(d.r > d.g && d.r > d.b, "{:?}", d);
    }
}
