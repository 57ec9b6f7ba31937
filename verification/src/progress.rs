//! Progress reporting for one pipeline stage, decoupled from any
//! rendering technology.
//!
//! A stage with measurable bounded work advances a monotonic counter;
//! `finish` always reaches the terminal "complete" state, whether or not
//! the cumulative advances reached the total, so a display never gets
//! stuck mid-progress when intermediate updates are dropped.

use vstd::prelude::*;
use crate::pipeline::PipelineStage;

verus! {

/// The progress counter of a single stage.
pub struct StageProgress {
    /// The stage this counter reports on.
    pub stage: PipelineStage,
    /// Total units of work the stage was announced with.
    pub total: u64,
    /// Units reported so far, clamped to `total`.
    pub current: u64,
    /// Whether the terminal "complete" state was rendered.
    pub finished: bool,
}

impl StageProgress {
    /// The counter never exceeds its total, and a finished counter
    /// stands at its total.
    pub open spec fn wf(&self) -> bool {
        &&& self.current <= self.total
        &&& (self.finished ==> self.current == self.total)
    }

    /// Announce a stage with `total` units of bounded work.
    pub fn begin(stage: PipelineStage, total: u64) -> (r: StageProgress)
        ensures
            r.wf(),
            r.stage == stage,
            r.total == total,
            r.current == 0,
            !r.finished,
    {
        StageProgress { stage, total, current: 0, finished: false }
    }

    /// Report `delta` more units.  The counter is monotonic and is
    /// clamped at the announced total.
    pub fn advance(&mut self, delta: u64)
        requires
            old(self).wf(),
            !old(self).finished,
        ensures
            final(self).wf(),
            final(self).stage == old(self).stage,
            final(self).total == old(self).total,
            !final(self).finished,
            final(self).current == if old(self).current + delta <= old(self).total {
                old(self).current + delta
            } else {
                old(self).total as int
            },
            final(self).current >= old(self).current,
    {
        if delta <= self.total - self.current {
            self.current = self.current + delta;
        } else {
            self.current = self.total;
        }
    }

    /// Render the terminal "complete" state, regardless of how much of
    /// the total the advances reached.
    pub fn finish(&mut self)
        requires
            old(self).wf(),
        ensures
            final(self).wf(),
            final(self).stage == old(self).stage,
            final(self).total == old(self).total,
            final(self).finished,
            final(self).current == final(self).total,
    {
        self.current = self.total;
        self.finished = true;
    }
}

} // verus!
