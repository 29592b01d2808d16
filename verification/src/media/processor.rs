//! Ordered, mutable pipeline of per-frame transforms.
//!
//! Processors form a closed set of tagged variants selected at
//! construction time; every frame of a track runs through the whole
//! chain in order.

use vstd::prelude::*;

use crate::media::ambiance::AmbianceProcessor;
use crate::media::AudioFrame;
use crate::media::MediaError;

verus! {

/// One frame transform.
pub enum Processor {
    Ambiance(AmbianceProcessor),
}

impl Processor {
    pub open spec fn wf(self) -> bool {
        match self {
            Processor::Ambiance(p) => p.wf(),
        }
    }

    /// Apply this transform to one frame.  Per-frame trouble never
    /// aborts the pipeline, and the frame keeps its track identity.
    pub fn process_frame(&mut self, frame: &mut AudioFrame) -> (r: Result<(), MediaError>)
        requires
            old(self).wf(),
        ensures
            final(self).wf(),
            r is Ok,
            final(frame).track_id == old(frame).track_id,
            final(frame).timestamp == old(frame).timestamp,
    {
        match self {
            Processor::Ambiance(p) => p.process_frame(frame),
        }
    }
}

/// The ordered transform chain a track applies to every frame.
pub struct ProcessorChain {
    pub processors: Vec<Processor>,
}

impl ProcessorChain {
    pub open spec fn wf(self) -> bool {
        forall|i: int| 0 <= i < self.processors@.len() ==> (#[trigger] self.processors@[i]).wf()
    }

    pub fn new() -> (r: ProcessorChain)
        ensures
            r.wf(),
            r.processors@.len() == 0,
    {
        ProcessorChain { processors: Vec::new() }
    }

    /// Append a transform at the end of the chain.
    pub fn append_processor(&mut self, processor: Processor)
        requires
            old(self).wf(),
            processor.wf(),
        ensures
            final(self).wf(),
            final(self).processors@ == old(self).processors@.push(processor),
    {
        self.processors.push(processor);
    }

    /// Run the frame through every processor in order.  The frame's
    /// track identity survives the whole chain.
    pub fn process_frame(&mut self, frame: &mut AudioFrame) -> (r: Result<(), MediaError>)
        requires
            old(self).wf(),
        ensures
            final(self).wf(),
            r is Ok,
            final(frame).track_id == old(frame).track_id,
            final(frame).timestamp == old(frame).timestamp,
            final(self).processors@.len() == old(self).processors@.len(),
    {
        let n = self.processors.len();
        let mut i: usize = 0;
        while i < n
            invariant
                self.wf(),
                n == self.processors@.len(),
                i <= n,
                frame.track_id == old(frame).track_id,
                frame.timestamp == old(frame).timestamp,
            decreases n - i,
        {
            let _ = self.process_one(i, frame);
            i += 1;
        }
        Ok(())
    }

    /// Run one processor of the chain, preserving the others.
    fn process_one(&mut self, i: usize, frame: &mut AudioFrame) -> (r: Result<(), MediaError>)
        requires
            old(self).wf(),
            i < old(self).processors@.len(),
        ensures
            final(self).wf(),
            r is Ok,
            final(frame).track_id == old(frame).track_id,
            final(frame).timestamp == old(frame).timestamp,
            final(self).processors@.len() == old(self).processors@.len(),
            forall|j: int|
                0 <= j < old(self).processors@.len() && j != i ==> final(self).processors@[j]
                    == old(self).processors@[j],
    {
        let mut p = self.processors.remove(i);
        let r = p.process_frame(frame);
        self.processors.insert(i, p);
        proof {
            assert forall|j: int|
                0 <= j < self.processors@.len() implies (#[trigger] self.processors@[j]).wf() by {
                if j < i {
                    assert(self.processors@[j] == old(self).processors@[j]);
                } else if j > i {
                    assert(self.processors@[j] == old(self).processors@[j]);
                }
            }
        }
        r
    }
}

} // verus!
