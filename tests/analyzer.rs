use elk_led_controller::analyzer::WINDOW_SIZE;
use elk_led_controller::{AudioAnalyzer, FrequencyRange, SpectrumBin};
use spectrum_analyzer::{samples_fft_to_spectrum, FrequencyLimit};

const RATE: usize = 44_100;

fn bins(bass: u64, mid: u64, high: u64) -> Vec<SpectrumBin> {
    vec![
        SpectrumBin { frequency_mhz: 100_000, magnitude: bass },
        SpectrumBin { frequency_mhz: 1_000_000, magnitude: mid },
        SpectrumBin { frequency_mhz: 5_000_000, magnitude: high },
    ]
}

fn full_analyzer() -> AudioAnalyzer {
    let mut a = AudioAnalyzer::new(RATE);
    for _ in 0..WINDOW_SIZE {
        a.add_sample(0);
    }
    a
}

fn tone(freq: f32, amplitude: f32) -> Vec<i32> {
    (0..WINDOW_SIZE)
        .map(|i| {
            let t = i as f32 / RATE as f32;
            ((2.0 * std::f32::consts::PI * freq * t).sin() * amplitude * 1e6) as i32
        })
        .collect()
}

fn spectrum_of(samples: &[i32]) -> Vec<SpectrumBin> {
    let floats: Vec<f32> = samples.iter().map(|&s| s as f32 / 1e6).collect();
    let spectrum = samples_fft_to_spectrum(
        &floats,
        RATE as u32,
        FrequencyLimit::Range(20.0, 20000.0),
        None,
    )
    .unwrap();
    spectrum
        .data()
        .iter()
        .map(|(f, m)| SpectrumBin {
            frequency_mhz: (f.val() as f64 * 1000.0) as u64,
            magnitude: (m.val() as f64 * 1e6) as u64,
        })
        .collect()
}

fn feed_tone(freq: f32, amplitude: f32, ticks: u64) -> AudioAnalyzer {
    let mut a = AudioAnalyzer::new(RATE);
    let samples = tone(freq, amplitude);
    for &s in &samples {
        a.add_sample(s);
    }
    let spectrum = spectrum_of(&a.samples());
    for k in 0..ticks {
        a.analyze(&spectrum, 10_000 + 50 * k);
    }
    a
}

#[test]
fn new_analyzer_starts_cold() {
    let a = AudioAnalyzer::new(RATE);
    assert_eq!(a.window_len(), 0);
    assert!(!a.is_ready());
    assert_eq!(a.get_bpm(), 120_000);
    assert_eq!(a.sample_rate(), RATE);
    assert_eq!(a.get_normalized_energy(FrequencyRange::Full), 0);
    assert!(!a.is_beat_detected(FrequencyRange::Full));
}

#[test]
fn window_keeps_the_newest_samples() {
    let mut a = AudioAnalyzer::new(RATE);
    for i in 0..(WINDOW_SIZE as i32 + 5) {
        a.add_sample(i);
    }
    assert_eq!(a.window_len(), WINDOW_SIZE);
    let s = a.samples();
    assert_eq!(s[0], 5);
    assert_eq!(s[WINDOW_SIZE - 1], WINDOW_SIZE as i32 + 4);
}

#[test]
fn analyze_is_noop_before_window_fills() {
    let mut a = AudioAnalyzer::new(RATE);
    for i in 0..(WINDOW_SIZE - 1) {
        a.add_sample(i as i32);
    }
    a.analyze(&bins(1_000_000, 1_000_000, 1_000_000), 5_000);
    assert_eq!(a.get_energy(FrequencyRange::Bass), 0);
    assert_eq!(a.get_energy(FrequencyRange::Full), 0);
    assert_eq!(a.get_normalized_energy(FrequencyRange::Full), 0);
    assert!(!a.is_beat_detected(FrequencyRange::Full));
    assert_eq!(a.get_bpm(), 120_000);
    assert!(a.beat_timestamps().is_empty());
    assert_eq!(a.last_beat_time(), 0);
}

#[test]
fn band_energy_is_scaled_mean_magnitude() {
    let mut a = full_analyzer();
    let spectrum = vec![
        SpectrumBin { frequency_mhz: 20_000, magnitude: 1_000_000 },
        SpectrumBin { frequency_mhz: 250_000, magnitude: 2_000_000 },
        SpectrumBin { frequency_mhz: 3_000_000, magnitude: 500_000 },
        SpectrumBin { frequency_mhz: 25_000_000, magnitude: 9_000_000 },
    ];
    a.analyze(&spectrum, 1_000);
    // bass: mean of 1.0 and 2.0 times 0.8; the 250 Hz bin counts for mid too
    assert_eq!(a.get_energy(FrequencyRange::Bass), 1_200_000);
    assert_eq!(a.get_energy(FrequencyRange::Mid), 1_600_000);
    assert_eq!(a.get_energy(FrequencyRange::High), 400_000);
    // smoothed 0.3 of the energy, maximum raised to the energy
    assert_eq!(a.get_normalized_energy(FrequencyRange::Bass), 300_000);
    assert_eq!(a.get_normalized_energy(FrequencyRange::Full), 300_000);
}

#[test]
fn band_without_bins_keeps_its_energy() {
    let mut a = full_analyzer();
    a.analyze(&bins(1_000_000, 1_000_000, 1_000_000), 1_000);
    let only_bass = vec![SpectrumBin { frequency_mhz: 100_000, magnitude: 500_000 }];
    a.analyze(&only_bass, 1_050);
    assert_eq!(a.get_energy(FrequencyRange::Bass), 400_000);
    assert_eq!(a.get_energy(FrequencyRange::Mid), 800_000);
    assert_eq!(a.get_energy(FrequencyRange::High), 800_000);
}

#[test]
fn max_energy_decays_slowly() {
    let mut a = full_analyzer();
    a.analyze(&bins(1_000_000, 0, 0), 1_000);
    // energy 0.8: max 0.8, smoothed 0.24
    a.analyze(&bins(0, 0, 0), 1_050);
    // max 0.8 * 0.9995 = 0.7996, smoothed 0.168: 0.168 / 0.7996 = 0.210105...
    assert_eq!(a.get_normalized_energy(FrequencyRange::Bass), 210_105);
}

#[test]
fn normalized_energy_stays_in_unit_range() {
    let mut a = full_analyzer();
    let levels = [5_000_000u64, 0, 7, 900_000_000, 3, 0, 1];
    for (k, &m) in levels.iter().enumerate() {
        a.analyze(&bins(m, m / 2, m / 3), 1_000 + 50 * k as u64);
        for r in [FrequencyRange::Bass, FrequencyRange::Mid, FrequencyRange::High, FrequencyRange::Full] {
            assert!(a.get_normalized_energy(r) <= 1_000_000);
        }
    }
}

#[test]
fn bass_spike_is_a_beat_and_is_recorded() {
    let mut a = full_analyzer();
    a.analyze(&bins(1_000_000, 0, 0), 1_000);
    assert!(a.is_beat_detected(FrequencyRange::Bass));
    assert!(!a.is_beat_detected(FrequencyRange::Mid));
    assert!(a.is_beat_detected(FrequencyRange::Full));
    assert_eq!(a.beat_timestamps(), vec![1_000]);
    assert_eq!(a.last_beat_time(), 1_000);
}

#[test]
fn bass_beats_within_refractory_time_are_not_recorded() {
    let mut a = full_analyzer();
    a.analyze(&bins(1_000_000, 0, 0), 1_000);
    a.analyze(&bins(2_000_000, 0, 0), 1_150);
    assert!(a.is_beat_detected(FrequencyRange::Bass));
    assert_eq!(a.beat_timestamps(), vec![1_000]);
    a.analyze(&bins(100_000, 0, 0), 1_180);
    a.analyze(&bins(3_000_000, 0, 0), 1_201);
    assert_eq!(a.beat_timestamps(), vec![1_000, 1_201]);
    let ts = a.beat_timestamps();
    for w in ts.windows(2) {
        assert!(w[1] - w[0] > 200);
    }
}

fn beats_every(period: u64, count: u64) -> AudioAnalyzer {
    let mut a = full_analyzer();
    for k in 0..count {
        let t = 1_000 + k * period;
        a.analyze(&bins(1_000_000, 0, 0), t);
        a.analyze(&bins(100_000, 0, 0), t + period / 2);
    }
    a
}

#[test]
fn tempo_blends_plausible_rate() {
    // beats 400 ms apart: 150 BPM, blended 0.3 into 120 BPM
    let a = beats_every(400, 4);
    assert_eq!(a.beat_timestamps(), vec![1_000, 1_400, 1_800, 2_200]);
    assert_eq!(a.get_bpm(), 129_000);
}

#[test]
fn tempo_ignores_implausible_rate() {
    // beats 250 ms apart: 240 BPM, out of range
    let a = beats_every(250, 6);
    assert_eq!(a.beat_timestamps().len(), 6);
    assert_eq!(a.get_bpm(), 120_000);
}

#[test]
fn tempo_needs_four_beats() {
    let a = beats_every(400, 3);
    assert_eq!(a.get_bpm(), 120_000);
}

#[test]
fn old_beats_leave_the_tempo_window() {
    let mut a = full_analyzer();
    a.analyze(&bins(1_000_000, 0, 0), 1_000);
    a.analyze(&bins(100_000, 0, 0), 3_000);
    a.analyze(&bins(1_000_000, 0, 0), 6_500);
    assert_eq!(a.beat_timestamps(), vec![6_500]);
}

#[test]
fn on_beat_follows_the_tempo() {
    let mut a = full_analyzer();
    a.analyze(&bins(1_000_000, 0, 0), 1_000);
    assert_eq!(a.get_bpm(), 120_000);
    assert!(a.is_on_beat(1_000));
    assert!(a.is_on_beat(1_099));
    assert!(!a.is_on_beat(1_100));
    assert!(!a.is_on_beat(1_250));
    assert!(a.is_on_beat(1_450));
    assert!(a.is_on_beat(2_030));
    assert!(a.is_on_beat(500));
}

#[test]
fn snapshot_reports_the_analysis() {
    let mut a = full_analyzer();
    a.analyze(&bins(1_000_000, 0, 0), 1_000);
    let s = a.snapshot(1_000);
    assert_eq!(s.bass, 300_000);
    assert!(s.bass_beat);
    assert!(!s.mid_beat);
    assert_eq!(s.bpm, 120_000);
    assert!(s.on_beat);
    assert_eq!(s.full, a.get_normalized_energy(FrequencyRange::Full));
}

#[test]
fn pure_tone_dominates_its_band() {
    let step = RATE as f32 / WINDOW_SIZE as f32;
    let cases = [
        (5.0 * step, FrequencyRange::Bass),
        (46.0 * step, FrequencyRange::Mid),
        (232.0 * step, FrequencyRange::High),
    ];
    for (freq, band) in cases {
        let a = feed_tone(freq, 0.5, 5);
        let e = a.get_energy(band);
        for other in [FrequencyRange::Bass, FrequencyRange::Mid, FrequencyRange::High] {
            if other != band {
                assert!(e > a.get_energy(other), "{} Hz", freq);
            }
        }
    }
}

#[test]
fn long_silence_keeps_the_maximum_positive() {
    let mut a = full_analyzer();
    a.analyze(&bins(1_000_000, 1_000_000, 1_000_000), 1_000);
    for k in 0..20_000u64 {
        a.analyze(&bins(0, 0, 0), 1_050 + 50 * k);
    }
    assert_eq!(a.get_normalized_energy(FrequencyRange::Full), 0);
    a.analyze(&bins(1_250, 1_250, 1_250), 2_000_000);
    let level = a.get_normalized_energy(FrequencyRange::Bass);
    assert!(level > 0 && level <= 1_000_000);
}

#[test]
fn snapshot_energy_by_range() {
    let mut a = full_analyzer();
    a.analyze(&bins(1_000_000, 500_000, 0), 1_000);
    let s = a.snapshot(1_000);
    for r in [FrequencyRange::Bass, FrequencyRange::Mid, FrequencyRange::High, FrequencyRange::Full] {
        assert_eq!(s.energy(r), a.get_normalized_energy(r));
    }
    assert_eq!(s.energy(FrequencyRange::Bass), 300_000);
}
