//! Audio-reactive control of ELK-BLEDOM style Bluetooth LED strips.
//!
//! The library holds the logic: a fixed-point spectral analyzer with beat
//! detection and tempo estimation, a pure visualization engine that turns an
//! analysis snapshot into a color/brightness/effect decision, the decisions of
//! the analysis loop, and the byte frames of the strip's command protocol.

pub mod analyzer;
pub mod daemon;
pub mod device;
pub mod effects;
pub mod pipeline;
pub mod schedule;
pub mod text;
pub mod visual;

pub use analyzer::{AudioAnalyzer, FrequencyRange, Snapshot, SpectrumBin};
pub use device::{DeviceConfig, DeviceType};
pub use effects::Effects;
pub use pipeline::{Pipeline, PipelinePhase, TickOutcome};
pub use schedule::{parse_days, Days};
pub use visual::{decide, AudioColor, AudioVisualization, FlowWaves, VisualizationMode};
