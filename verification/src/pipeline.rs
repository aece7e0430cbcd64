//! The per-session processing applied to each captured block.
//!
//! For every raw block the pipeline task runs the resampling engine and, if
//! the session asked for stereo, duplicates each sample into an interleaved
//! left/right pair. When rates differ, the engine yields whole chunks for
//! the spectral transform; the task reassembles the transform outputs, in
//! order, into the block that is published to the consumer.

use vstd::prelude::*;

use crate::config::Channels;
use crate::errors::AecError;
use crate::resampler::{ProcessStep, Resampler, chunks_of, spec_chunk_size};

verus! {

/// `s` with every sample duplicated: [s0, s0, s1, s1, ...].
pub open spec fn stereo_expand(s: Seq<u32>) -> Seq<u32> {
    Seq::new(2 * s.len(), |i: int| s[i / 2])
}

/// The block a mono sample sequence is delivered as: duplicated pairwise
/// for stereo sessions, unchanged for mono sessions.
pub open spec fn delivered_form(s: Seq<u32>, stereo: bool) -> Seq<u32> {
    if stereo {
        stereo_expand(s)
    } else {
        s
    }
}

/// Duplicates each mono sample into an interleaved left/right pair:
/// k samples become 2k samples arranged [s0, s0, s1, s1, ...].
pub fn duplicate_stereo(samples: &Vec<u32>) -> (r: Vec<u32>)
    ensures
        r@ == stereo_expand(samples@),
        r@.len() == 2 * samples@.len(),
        forall|i: int|
            0 <= i < samples@.len() ==> r@[2 * i] == samples@[i] && r@[2 * i + 1] == samples@[i],
{
    let n: usize = samples.len();
    let mut r: Vec<u32> = Vec::new();
    let mut i: usize = 0;
    while i < n
        invariant
            i <= n,
            n == samples@.len(),
            r@ == stereo_expand(samples@.take(i as int)),
        decreases n - i,
    {
        let x = samples[i];
        r.push(x);
        r.push(x);
        proof {
            assert(r@ =~= stereo_expand(samples@.take(i + 1)));
        }
        i += 1;
    }
    proof {
        assert(samples@.take(samples@.len() as int) =~= samples@);
        assert(forall|i: int|
            0 <= i < samples@.len() ==> r@[2 * i] == samples@[i] && r@[2 * i + 1] == samples@[i]);
    }
    r
}

/// Concatenates transform output blocks in order.
pub fn concat_blocks(parts: &Vec<Vec<u32>>) -> (r: Vec<u32>)
    ensures
        r@ == parts.deep_view().flatten(),
{
    let mut r: Vec<u32> = Vec::new();
    let mut i: usize = 0;
    while i < parts.len()
        invariant
            i <= parts@.len(),
            r@ == parts.deep_view().take(i as int).flatten(),
        decreases parts@.len() - i,
    {
        let ghost pre = parts.deep_view().take(i as int);
        r.extend_from_slice(parts[i].as_slice());
        proof {
            pre.lemma_flatten_push(parts@[i as int].deep_view());
            assert(parts.deep_view().take(i + 1) =~= pre.push(parts@[i as int].deep_view()));
            assert(parts@[i as int].deep_view() == parts@[i as int]@);
        }
        i += 1;
    }
    proof {
        assert(parts.deep_view().take(parts@.len() as int) =~= parts.deep_view());
    }
    r
}

/// What `begin_block` asks the caller to do next.
pub enum BlockPlan {
    /// The block is fully processed and ready to publish.
    Ready(Vec<u32>),
    /// These whole chunks must be run through the spectral transform, in
    /// order; hand the outputs to `finish_block`.
    NeedsTransform(Vec<Vec<u32>>),
}

/// The per-block stage of one capture session: owns the session's resampling
/// engine and knows whether output is duplicated to stereo.
pub struct PipelineTask {
    resampler: Resampler,
    stereo: bool,
}

impl PipelineTask {
    /// The session's resampling engine state.
    pub closed spec fn engine(self) -> Resampler {
        self.resampler
    }

    /// Whether delivered blocks are duplicated to interleaved stereo.
    pub closed spec fn is_stereo(self) -> bool {
        self.stereo
    }

    pub open spec fn wf(self) -> bool {
        self.engine().wf()
    }

    /// Builds the stage for a session: a resampling engine for the rate pair
    /// and the requested channel layout.
    pub fn new(native_rate: u32, target_rate: u32, channels: Channels) -> (r: Result<
        PipelineTask,
        AecError,
    >)
        ensures
            (native_rate == target_rate || (target_rate >= 1 && spec_chunk_size(
                native_rate as int,
            ) >= 1)) <==> r is Ok,
            r matches Ok(t) ==> {
                &&& t.wf()
                &&& t.engine().source_rate() == native_rate
                &&& t.engine().target_rate() == target_rate
                &&& t.engine().consumed() == Seq::<u32>::empty()
                &&& t.is_stereo() == (channels == Channels::Stereo)
            },
            r matches Err(e) ==> e matches AecError::BackendError(_),
    {
        let resampler = Resampler::new(native_rate, target_rate)?;
        Ok(PipelineTask { resampler, stereo: matches!(channels, Channels::Stereo) })
    }

    /// Starts processing one raw block.
    ///
    /// With equal rates the finished output comes back at once, in delivered
    /// form. Otherwise the block feeds the resampling engine and the whole
    /// chunks now available come back for the spectral transform.
    pub fn begin_block(&mut self, samples: &Vec<u32>) -> (r: BlockPlan)
        requires
            old(self).wf(),
        ensures
            final(self).wf(),
            final(self).is_stereo() == old(self).is_stereo(),
            final(self).engine().source_rate() == old(self).engine().source_rate(),
            final(self).engine().target_rate() == old(self).engine().target_rate(),
            old(self).engine().is_identity() ==> (r matches BlockPlan::Ready(out) && out@
                == delivered_form(samples@, old(self).is_stereo()) && *final(self) == *old(self)),
            !old(self).engine().is_identity() ==> {
                &&& r matches BlockPlan::NeedsTransform(chunks)
                &&& final(self).engine().consumed() == old(self).engine().consumed() + samples@
                &&& chunks.deep_view() == chunks_of(
                    old(self).engine().buffered() + samples@,
                    old(self).engine().chunk_len(),
                )
                &&& chunks_of(final(self).engine().consumed(), old(self).engine().chunk_len())
                    == chunks_of(old(self).engine().consumed(), old(self).engine().chunk_len())
                    + chunks.deep_view()
                &&& forall|i: int|
                    0 <= i < chunks@.len() ==> (#[trigger] chunks@[i])@.len() == old(
                        self,
                    ).engine().chunk_len()
            },
    {
        match self.resampler.process(samples) {
            ProcessStep::Passthrough(out) => {
                if self.stereo {
                    BlockPlan::Ready(duplicate_stereo(&out))
                } else {
                    BlockPlan::Ready(out)
                }
            },
            ProcessStep::Chunks(chunks) => BlockPlan::NeedsTransform(chunks),
        }
    }

    /// The resampling chunk size in samples: 10 ms at the native rate.
    pub fn chunk_frames(&self) -> (r: usize)
        ensures
            r as int == self.engine().chunk_len(),
    {
        self.resampler.chunk_frames()
    }

    /// Reassembles the spectral transform's outputs — one per chunk handed
    /// out by `begin_block`, in order — into the delivered block.
    pub fn finish_block(&self, transformed: &Vec<Vec<u32>>) -> (r: Vec<u32>)
        ensures
            r@ == delivered_form(transformed.deep_view().flatten(), self.is_stereo()),
    {
        let joined = concat_blocks(transformed);
        if self.stereo {
            duplicate_stereo(&joined)
        } else {
            joined
        }
    }
}

/// Renders one output-callback cycle from the playback staging buffer: the
/// available samples are played first, the rest of the cycle is silence,
/// and the played samples leave the buffer. Word zero is the canonical
/// encoding of silence.
pub fn render_playback(staging: &mut Vec<u32>, frames: usize) -> (out: Vec<u32>)
    ensures
        out@.len() == frames,
        final(staging)@ == old(staging)@.skip(
            if old(staging)@.len() < frames {
                old(staging)@.len() as int
            } else {
                frames as int
            },
        ),
        forall|i: int|
            0 <= i < frames ==> out@[i] == (if i < old(staging)@.len() {
                old(staging)@[i]
            } else {
                0u32
            }),
{
    let available: usize = if staging.len() < frames {
        staging.len()
    } else {
        frames
    };
    let mut out: Vec<u32> = Vec::new();
    let mut i: usize = 0;
    while i < available
        invariant
            i <= available,
            available <= staging@.len(),
            available <= frames,
            out@.len() == i,
            forall|k: int| 0 <= k < i ==> out@[k] == staging@[k],
        decreases available - i,
    {
        let x = staging[i];
        out.push(x);
        i += 1;
    }
    while i < frames
        invariant
            available <= i <= frames,
            out@.len() == i,
            forall|k: int| 0 <= k < available ==> out@[k] == staging@[k],
            forall|k: int| available <= k < i ==> out@[k] == 0u32,
        decreases frames - i,
    {
        out.push(0);
        i += 1;
    }
    let rest = staging.split_off(available);
    *staging = rest;
    out
}

} // verus!
