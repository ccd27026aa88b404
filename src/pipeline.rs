//! Decisions of the analysis loop: when a tick is due, what one tick does to
//! the analyzer, and what it hands out for publication.
//!
//! The loop itself (draining the sample queue, computing the spectrum,
//! sleeping, publishing) runs outside the library; it asks `is_due` on every
//! pass and calls `tick` when a tick is due.
use crate::analyzer::{
    analyzed, analyzer_wf, lemma_analyzed_wf, lemma_normalized_in_unit, normalized_energy,
    snapshot_energy, snapshot_of, AnalyzerView, AudioAnalyzer, FrequencyRange, Snapshot,
    SpectrumBin, UNIT,
};
use crate::visual::{decide, decision_of, AudioColor, AudioVisualization, FlowWaves};
use vstd::prelude::*;

verus! {

/// Life cycle of a pipeline: started once, stopped for good.
#[derive(Debug, Clone, Copy, PartialEq, Eq, Structural)]
pub enum PipelinePhase {
    Idle,
    Running,
    Stopped,
}

/// What one tick hands out: the analyzer's snapshot, always, and a decision
/// to publish when the configuration is active.
#[derive(Debug, Clone, Copy, PartialEq, Eq)]
pub struct TickOutcome {
    pub snapshot: Snapshot,
    pub decision: Option<AudioColor>,
}

pub struct PipelineView {
    pub analyzer: AnalyzerView,
    pub phase: PipelinePhase,
    pub last_update: u64,
}

/// Milliseconds from `since` to `now`, or 0 if `now` is earlier.
pub open spec fn elapsed(since: u64, now: u64) -> int {
    if now >= since {
        now - since
    } else {
        0
    }
}

/// A tick is due when the pipeline runs and the update interval has passed
/// since the last tick.
pub open spec fn due(p: PipelineView, now: u64, interval_ms: u32) -> bool {
    p.phase == PipelinePhase::Running && elapsed(p.last_update, now) >= interval_ms
}

/// The pipeline and the outcome after a tick at `now`. A missing spectrum
/// (the transform failed) leaves the analyzer as it was.
pub open spec fn ticked(
    p: PipelineView,
    spectrum: Option<Seq<SpectrumBin>>,
    c: AudioVisualization,
    w: FlowWaves,
    now: u64,
) -> (PipelineView, Option<TickOutcome>) {
    if p.phase != PipelinePhase::Running {
        (p, None)
    } else {
        let a = match spectrum {
            Some(bins) => analyzed(p.analyzer, bins, now),
            None => p.analyzer,
        };
        let sn = snapshot_of(a, now);
        (
            PipelineView { analyzer: a, last_update: now, ..p },
            Some(
                TickOutcome {
                    snapshot: sn,
                    decision: if c.active {
                        Some(decision_of(sn, c, w))
                    } else {
                        None
                    },
                },
            ),
        )
    }
}

/// The analysis side of the visualization pipeline.
pub struct Pipeline {
    analyzer: AudioAnalyzer,
    phase: PipelinePhase,
    last_update_ms: u64,
}

impl View for Pipeline {
    type V = PipelineView;

    closed spec fn view(&self) -> PipelineView {
        PipelineView { analyzer: self.analyzer@, phase: self.phase, last_update: self.last_update_ms }
    }
}

pub open spec fn pipeline_wf(p: PipelineView) -> bool {
    analyzer_wf(p.analyzer)
}

pub open spec fn spectrum_view(spectrum: Option<&Vec<SpectrumBin>>) -> Option<Seq<SpectrumBin>> {
    match spectrum {
        Some(v) => Some(v@),
        None => None,
    }
}

impl Pipeline {
    /// An idle pipeline around a new analyzer for audio at `sample_rate` Hz.
    pub fn new(sample_rate: usize) -> (r: Pipeline)
        ensures
            pipeline_wf(r@),
            r@.phase == PipelinePhase::Idle,
            r@.analyzer.window.len() == 0,
            r@.analyzer.sample_rate == sample_rate,
            r@.last_update == 0,
    {
        Pipeline { analyzer: AudioAnalyzer::new(sample_rate), phase: PipelinePhase::Idle, last_update_ms: 0 }
    }

    pub fn phase(&self) -> (r: PipelinePhase)
        ensures
            r == self@.phase,
    {
        self.phase
    }

    pub fn analyzer(&self) -> (r: &AudioAnalyzer)
        ensures
            r@ == self@.analyzer,
    {
        &self.analyzer
    }

    /// Starts an idle pipeline at `now`; a running or stopped one is left as
    /// it is.
    pub fn start(&mut self, now: u64)
        requires
            pipeline_wf(old(self)@),
        ensures
            pipeline_wf(final(self)@),
            old(self)@.phase == PipelinePhase::Idle ==> final(self)@ == (PipelineView {
                phase: PipelinePhase::Running,
                last_update: now,
                ..old(self)@
            }),
            old(self)@.phase != PipelinePhase::Idle ==> final(self)@ == old(self)@,
    {
        if self.phase == PipelinePhase::Idle {
            self.phase = PipelinePhase::Running;
            self.last_update_ms = now;
        }
    }

    /// Stops the pipeline for good. Stopping twice is the same as once.
    pub fn stop(&mut self)
        requires
            pipeline_wf(old(self)@),
        ensures
            pipeline_wf(final(self)@),
            final(self)@ == (PipelineView { phase: PipelinePhase::Stopped, ..old(self)@ }),
    {
        self.phase = PipelinePhase::Stopped;
    }

    /// Whether the loop should go on.
    pub fn is_running(&self) -> (r: bool)
        ensures
            r == (self@.phase == PipelinePhase::Running),
    {
        self.phase == PipelinePhase::Running
    }

    /// Hands one captured sample to the analyzer.
    pub fn add_sample(&mut self, sample: i32)
        requires
            pipeline_wf(old(self)@),
        ensures
            pipeline_wf(final(self)@),
            final(self)@.phase == old(self)@.phase,
            final(self)@.last_update == old(self)@.last_update,
            final(self)@.analyzer == (AnalyzerView {
                window: crate::analyzer::slid(old(self)@.analyzer.window, sample),
                ..old(self)@.analyzer
            }),
    {
        self.analyzer.add_sample(sample);
    }

    /// Whether a tick is due at `now` for an update interval of `interval_ms`.
    pub fn is_due(&self, now: u64, interval_ms: u32) -> (r: bool)
        ensures
            r == due(self@, now, interval_ms),
    {
        let elapsed: u64 = if now >= self.last_update_ms {
            now - self.last_update_ms
        } else {
            0
        };
        self.phase == PipelinePhase::Running && elapsed >= interval_ms as u64
    }

    /// One tick at `now`: analyzes `spectrum` (the spectrum of the current
    /// window, or `None` when the transform failed), then returns the
    /// snapshot and, when `config` is active, the decision to publish. A
    /// pipeline that is not running does nothing and returns `None`.
    pub fn tick(
        &mut self,
        spectrum: Option<&Vec<SpectrumBin>>,
        config: &AudioVisualization,
        waves: &FlowWaves,
        now: u64,
    ) -> (r: Option<TickOutcome>)
        requires
            pipeline_wf(old(self)@),
        ensures
            pipeline_wf(final(self)@),
            (final(self)@, r) == ticked(old(self)@, spectrum_view(spectrum), *config, *waves, now),
    {
        if self.phase != PipelinePhase::Running {
            return None;
        }
        if let Some(bins) = spectrum {
            self.analyzer.analyze(bins, now);
        }
        self.last_update_ms = now;
        let snapshot = self.analyzer.snapshot(now);
        let decision = if config.active {
            Some(decide(&snapshot, config, waves))
        } else {
            None
        };
        Some(TickOutcome { snapshot, decision })
    }
}

/// With the configuration inactive, a tick of a running pipeline still
/// analyzes but hands out no decision. The snapshot it hands out carries the
/// new analysis: each range's energy is the analyzer's normalized energy
/// after the tick, in [0, 1] (ppm), and the tempo is its estimate.
pub proof fn lemma_inactive_never_publishes(
    p: PipelineView,
    bins: Seq<SpectrumBin>,
    c: AudioVisualization,
    w: FlowWaves,
    now: u64,
)
    requires
        pipeline_wf(p),
        p.phase == PipelinePhase::Running,
        !c.active,
    ensures
        ({
            let (q, out) = ticked(p, Some(bins), c, w, now);
            &&& q.analyzer == analyzed(p.analyzer, bins, now)
            &&& out == Some(
                TickOutcome { snapshot: snapshot_of(q.analyzer, now), decision: None },
            )
            &&& forall|range: FrequencyRange|
                #![trigger normalized_energy(q.analyzer, range)]
                snapshot_energy(snapshot_of(q.analyzer, now), range) == normalized_energy(
                    q.analyzer,
                    range,
                ) && normalized_energy(q.analyzer, range) <= UNIT
            &&& snapshot_of(q.analyzer, now).bpm == q.analyzer.bpm
        }),
{
    let a = analyzed(p.analyzer, bins, now);
    lemma_analyzed_wf(p.analyzer, bins, now);
    assert forall|range: FrequencyRange|
        #![trigger normalized_energy(a, range)]
        snapshot_energy(snapshot_of(a, now), range) == normalized_energy(a, range)
            && normalized_energy(a, range) <= UNIT by {
        lemma_normalized_in_unit(a, FrequencyRange::Bass);
        lemma_normalized_in_unit(a, FrequencyRange::Mid);
        lemma_normalized_in_unit(a, FrequencyRange::High);
        lemma_normalized_in_unit(a, FrequencyRange::Full);
    }
}

/// A stopped pipeline stays stopped and does nothing on a tick.
pub proof fn lemma_stopped_is_final(
    p: PipelineView,
    spectrum: Option<Seq<SpectrumBin>>,
    c: AudioVisualization,
    w: FlowWaves,
    now: u64,
)
    requires
        p.phase == PipelinePhase::Stopped,
    ensures
        ticked(p, spectrum, c, w, now) == (p, None::<TickOutcome>),
        !due(p, now, 0),
{
}

} // verus!
