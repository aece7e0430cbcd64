//! Fixed-chunk accumulating rate conversion.
//!
//! The engine works on canonical sample words (the 32-bit patterns of the
//! mono float stream) and never interprets them numerically. Incoming blocks
//! of arbitrary size are appended to an accumulation buffer; whenever the
//! buffer holds at least one chunk — 10 ms worth of source-rate samples —
//! exactly one chunk is drained and handed to the spectral transform that
//! performs the actual rate conversion. Equal source and target rates make
//! the engine an identity: input passes through untouched, with no buffering.

use vstd::prelude::*;
use vstd::arithmetic::div_mod::{
    lemma_basic_div, lemma_fundamental_div_mod, lemma_fundamental_div_mod_converse_div,
    lemma_fundamental_div_mod_converse_mod, lemma_small_mod,
};
use vstd::seq_lib::lemma_flatten_concat;

use crate::errors::AecError;

verus! {

/// Number of samples in one resampling chunk: 10 ms at `rate` Hz, rounded
/// to the nearest integer.
pub open spec fn spec_chunk_size(rate: int) -> int {
    (rate + 50) / 100
}

/// The maximal prefix of `s` that splits into whole chunks of `cs` samples,
/// as the sequence of those chunks in order.
pub open spec fn chunks_of(s: Seq<u32>, cs: int) -> Seq<Seq<u32>>
    decreases s.len(),
{
    if cs <= 0 || s.len() < cs {
        Seq::empty()
    } else {
        seq![s.take(cs)] + chunks_of(s.skip(cs), cs)
    }
}

/// What remains of `s` after all whole chunks of `cs` samples are removed:
/// always shorter than one chunk.
pub open spec fn chunk_residue(s: Seq<u32>, cs: int) -> Seq<u32>
    decreases s.len(),
{
    if cs <= 0 || s.len() < cs {
        s
    } else {
        chunk_residue(s.skip(cs), cs)
    }
}

/// After `s.len()` samples have been accumulated, exactly `s.len() / cs`
/// chunks have been emitted and `s.len() % cs` samples remain buffered.
pub proof fn lemma_chunk_measures(s: Seq<u32>, cs: int)
    requires
        cs >= 1,
    ensures
        chunks_of(s, cs).len() == s.len() as int / cs,
        chunk_residue(s, cs).len() == s.len() as int % cs,
    decreases s.len(),
{
    if s.len() < cs {
        lemma_basic_div(s.len() as int, cs);
        lemma_small_mod(s.len(), cs as nat);
    } else {
        lemma_chunk_measures(s.skip(cs), cs);
        let q = chunks_of(s, cs).len() as int;
        let r = chunk_residue(s, cs).len() as int;
        assert(s.skip(cs).len() == s.len() - cs);
        lemma_fundamental_div_mod(s.skip(cs).len() as int, cs);
        assert(s.skip(cs).len() as int == cs * (q - 1) + r);
        assert(cs * (q - 1) == q * cs - cs) by (nonlinear_arith);
        assert(s.len() == q * cs + r);
        assert(r < cs) by {
            lemma_residue_short(s, cs);
        }
        lemma_fundamental_div_mod_converse_div(s.len() as int, cs, q, r);
        lemma_fundamental_div_mod_converse_mod(s.len() as int, cs, q, r);
    }
}

/// The residue is always shorter than one chunk.
pub proof fn lemma_residue_short(s: Seq<u32>, cs: int)
    requires
        cs >= 1,
    ensures
        chunk_residue(s, cs).len() < cs,
    decreases s.len(),
{
    if s.len() >= cs {
        lemma_residue_short(s.skip(cs), cs);
    }
}

/// Every emitted chunk holds exactly `cs` samples.
pub proof fn lemma_chunk_sizes(s: Seq<u32>, cs: int)
    requires
        cs >= 1,
    ensures
        forall|i: int|
            0 <= i < chunks_of(s, cs).len() ==> (#[trigger] chunks_of(s, cs)[i]).len() == cs,
    decreases s.len(),
{
    if s.len() >= cs {
        lemma_chunk_sizes(s.skip(cs), cs);
        assert forall|i: int| 0 <= i < chunks_of(s, cs).len() implies (#[trigger] chunks_of(
            s,
            cs,
        )[i]).len() == cs by {
            if i > 0 {
                assert(chunks_of(s, cs)[i] == chunks_of(s.skip(cs), cs)[i - 1]);
            }
        }
    }
}

/// Nothing is lost or invented: the emitted chunks followed by the residue
/// reassemble the accumulated input exactly.
pub proof fn lemma_chunks_cover(s: Seq<u32>, cs: int)
    requires
        cs >= 1,
    ensures
        chunks_of(s, cs).flatten() + chunk_residue(s, cs) == s,
    decreases s.len(),
{
    if s.len() < cs {
        assert(chunks_of(s, cs).flatten() + chunk_residue(s, cs) =~= s);
    } else {
        lemma_chunks_cover(s.skip(cs), cs);
        lemma_flatten_concat(seq![s.take(cs)], chunks_of(s.skip(cs), cs));
        seq![s.take(cs)].lemma_flatten_singleton();
        assert(chunks_of(s, cs) == seq![s.take(cs)] + chunks_of(s.skip(cs), cs));
        assert(chunks_of(s, cs).flatten() =~= s.take(cs) + chunks_of(s.skip(cs), cs).flatten());
        assert(chunks_of(s.skip(cs), cs).flatten() + chunk_residue(s.skip(cs), cs) == s.skip(cs));
        assert(chunk_residue(s, cs) == chunk_residue(s.skip(cs), cs));
        assert(s =~= s.take(cs) + s.skip(cs));
        assert(chunks_of(s, cs).flatten() + chunk_residue(s, cs) =~= s.take(cs) + (chunks_of(
            s.skip(cs),
            cs,
        ).flatten() + chunk_residue(s.skip(cs), cs)));
        assert(chunks_of(s, cs).flatten() + chunk_residue(s, cs) =~= s);
    }
}

/// Boundary insensitivity of chunking: feeding `a` and then `b` emits
/// exactly the chunks of `a + b`, and leaves the residue of `a + b` —
/// no matter where the boundary between the two calls falls.
pub proof fn lemma_boundary_insensitive(a: Seq<u32>, b: Seq<u32>, cs: int)
    requires
        cs >= 1,
    ensures
        chunks_of(a + b, cs) == chunks_of(a, cs) + chunks_of(chunk_residue(a, cs) + b, cs),
        chunk_residue(a + b, cs) == chunk_residue(chunk_residue(a, cs) + b, cs),
    decreases a.len(),
{
    if a.len() < cs {
        assert(chunk_residue(a, cs) + b =~= a + b);
        assert(chunks_of(a, cs) + chunks_of(a + b, cs) =~= chunks_of(a + b, cs));
    } else {
        lemma_boundary_insensitive(a.skip(cs), b, cs);
        assert((a + b).len() >= cs);
        assert((a + b).take(cs) =~= a.take(cs));
        assert((a + b).skip(cs) =~= a.skip(cs) + b);
        assert(chunks_of(a + b, cs) == seq![a.take(cs)] + chunks_of(a.skip(cs) + b, cs));
        assert(chunk_residue(a, cs) == chunk_residue(a.skip(cs), cs));
        assert(chunks_of(a, cs) + chunks_of(chunk_residue(a, cs) + b, cs) =~= seq![a.take(cs)]
            + (chunks_of(a.skip(cs), cs) + chunks_of(chunk_residue(a.skip(cs), cs) + b, cs)));
    }
}

/// What one `process` call produced.
pub enum ProcessStep {
    /// Source and target rates are equal: the output is the input itself.
    Passthrough(Vec<u32>),
    /// The whole chunks that became available; each must be run through the
    /// spectral transform, in order, and the outputs concatenated.
    Chunks(Vec<Vec<u32>>),
}

/// Per-stream resampling state: the rate pair, the fixed chunk size, and the
/// accumulation buffer holding samples that do not yet form a whole chunk.
///
/// One instance serves one stream; fresh construction resets all state.
pub struct Resampler {
    from_rate: u32,
    to_rate: u32,
    chunk: usize,
    pending: Vec<u32>,
    consumed: Ghost<Seq<u32>>,
}

impl Resampler {
    /// Source (native) rate in Hz.
    pub closed spec fn source_rate(self) -> int {
        self.from_rate as int
    }

    /// Target rate in Hz.
    pub closed spec fn target_rate(self) -> int {
        self.to_rate as int
    }

    /// Equal rates: the engine passes input through untouched.
    pub open spec fn is_identity(self) -> bool {
        self.source_rate() == self.target_rate()
    }

    /// The fixed chunk size, in samples.
    pub closed spec fn chunk_len(self) -> int {
        self.chunk as int
    }

    /// Samples accumulated but not yet drained into a chunk.
    pub closed spec fn buffered(self) -> Seq<u32> {
        self.pending@
    }

    /// All samples this instance has consumed since construction.
    pub closed spec fn consumed(self) -> Seq<u32> {
        self.consumed@
    }

    pub open spec fn wf(self) -> bool {
        &&& self.chunk_len() == spec_chunk_size(self.source_rate())
        &&& (!self.is_identity() ==> self.chunk_len() >= 1 && self.target_rate() >= 1)
        &&& (self.is_identity() ==> self.buffered() == Seq::<u32>::empty() && self.consumed()
            == Seq::<u32>::empty())
        &&& (!self.is_identity() ==> self.buffered() == chunk_residue(
            self.consumed(),
            self.chunk_len(),
        ))
    }

    /// Creates a resampler for a rate pair.
    ///
    /// Succeeds for equal rates (identity), and otherwise exactly when the
    /// target rate is positive and the source rate yields a non-empty chunk;
    /// a source rate too low for a whole chunk of 10 ms cannot drive the
    /// spectral transform and is rejected.
    pub fn new(from_rate: u32, to_rate: u32) -> (r: Result<Resampler, AecError>)
        ensures
            (from_rate == to_rate || (to_rate >= 1 && spec_chunk_size(from_rate as int) >= 1))
                <==> r is Ok,
            r matches Ok(rs) ==> {
                &&& rs.wf()
                &&& rs.source_rate() == from_rate
                &&& rs.target_rate() == to_rate
                &&& rs.buffered() == Seq::<u32>::empty()
                &&& rs.consumed() == Seq::<u32>::empty()
            },
            r matches Err(e) ==> e matches AecError::BackendError(m) && m@
                == "resampler init failed: unsupported rate pair"@,
    {
        let chunk64: u64 = (from_rate as u64 + 50) / 100;
        let chunk: usize = chunk64 as usize;
        if from_rate != to_rate && (to_rate == 0 || chunk == 0) {
            return Err(
                AecError::BackendError(
                    String::from_str("resampler init failed: unsupported rate pair"),
                ),
            );
        }
        Ok(
            Resampler {
                from_rate,
                to_rate,
                chunk,
                pending: Vec::new(),
                consumed: Ghost(Seq::empty()),
            },
        )
    }

    /// The fixed chunk size in samples: 10 ms at the source rate.
    pub fn chunk_frames(&self) -> (r: usize)
        ensures
            r as int == self.chunk_len(),
    {
        self.chunk
    }

    /// Chunk accounting for a rate-converting engine: after any sequence of
    /// `process` calls, exactly one chunk has been emitted for each whole
    /// chunk's worth of cumulative input, and the accumulation buffer holds
    /// the division's remainder — always less than one chunk.
    pub proof fn lemma_chunk_progress(self)
        requires
            self.wf(),
            !self.is_identity(),
        ensures
            chunks_of(self.consumed(), self.chunk_len()).len() == self.consumed().len() as int
                / self.chunk_len(),
            self.buffered().len() == self.consumed().len() as int % self.chunk_len(),
            self.buffered().len() < self.chunk_len(),
    {
        lemma_chunk_measures(self.consumed(), self.chunk_len());
        lemma_residue_short(self.consumed(), self.chunk_len());
    }

    /// Feeds one input block to the engine.
    ///
    /// With equal rates the input comes straight back (`Passthrough`) and no
    /// state changes. Otherwise the block joins the accumulation buffer and
    /// every whole chunk now available is drained, in order (`Chunks`); the
    /// buffer keeps the residue, always shorter than one chunk. The chunk
    /// stream depends only on the concatenation of all input so far, never
    /// on how it was split across calls.
    pub fn process(&mut self, input: &Vec<u32>) -> (r: ProcessStep)
        requires
            old(self).wf(),
        ensures
            final(self).wf(),
            final(self).source_rate() == old(self).source_rate(),
            final(self).target_rate() == old(self).target_rate(),
            final(self).chunk_len() == old(self).chunk_len(),
            old(self).is_identity() ==> (r matches ProcessStep::Passthrough(out) && out@ == input@
                && *final(self) == *old(self)),
            !old(self).is_identity() ==> {
                &&& r matches ProcessStep::Chunks(chunks)
                &&& final(self).consumed() == old(self).consumed() + input@
                &&& chunks.deep_view() == chunks_of(
                    old(self).buffered() + input@,
                    old(self).chunk_len(),
                )
                &&& chunks_of(final(self).consumed(), old(self).chunk_len()) == chunks_of(
                    old(self).consumed(),
                    old(self).chunk_len(),
                ) + chunks.deep_view()
                &&& forall|i: int|
                    0 <= i < chunks@.len() ==> (#[trigger] chunks@[i])@.len() == old(
                        self,
                    ).chunk_len()
            },
    {
        let ghost init = *self;
        if self.from_rate == self.to_rate {
            return ProcessStep::Passthrough(input.clone());
        }
        let ghost cs = self.chunk as int;
        self.consumed = Ghost(self.consumed@ + input@);
        let ghost hist = self.consumed@;
        self.pending.extend_from_slice(input.as_slice());
        let ghost entry = self.pending@;
        let mut chunks: Vec<Vec<u32>> = Vec::new();
        while self.pending.len() >= self.chunk
            invariant
                self.chunk as int == cs,
                cs >= 1,
                self.from_rate == init.from_rate,
                self.to_rate == init.to_rate,
                self.consumed@ == hist,
                chunks_of(entry, cs) == chunks.deep_view() + chunks_of(self.pending@, cs),
                chunk_residue(entry, cs) == chunk_residue(self.pending@, cs),
                forall|i: int| 0 <= i < chunks@.len() ==> (#[trigger] chunks@[i])@.len() == cs,
            decreases self.pending.len(),
        {
            let ghost before = self.pending@;
            let mut one: Vec<u32> = Vec::new();
            let mut j: usize = 0;
            while j < self.chunk
                invariant
                    j <= self.chunk,
                    self.chunk <= self.pending.len(),
                    self.pending@ == before,
                    self.chunk as int == cs,
                    one@ == before.take(j as int),
                decreases self.chunk - j,
            {
                let x = self.pending[j];
                one.push(x);
                assert(one@ =~= before.take(j + 1));
                j += 1;
            }
            let tail = self.pending.split_off(self.chunk);
            self.pending = tail;
            proof {
                assert(one@ == before.take(cs));
                assert(self.pending@ == before.skip(cs));
                assert(chunks_of(before, cs) == seq![before.take(cs)] + chunks_of(
                    before.skip(cs),
                    cs,
                ));
                assert(chunk_residue(before, cs) == chunk_residue(before.skip(cs), cs));
            }
            let ghost chunks_before = chunks.deep_view();
            chunks.push(one);
            proof {
                assert(chunks.deep_view() =~~= chunks_before.push(one@));
                assert(chunks.deep_view() + chunks_of(self.pending@, cs) =~= chunks_before + (seq![
                    one@,
                ] + chunks_of(self.pending@, cs)));
            }
        }
        proof {
            assert(chunks_of(self.pending@, cs) =~= Seq::<Seq<u32>>::empty());
            assert(chunks.deep_view() + chunks_of(self.pending@, cs) =~= chunks.deep_view());
            assert(entry =~= chunk_residue(init.consumed@, cs) + input@);
            lemma_boundary_insensitive(init.consumed@, input@, cs);
            assert(chunks_of(hist, cs) == chunks_of(init.consumed@, cs) + chunks.deep_view());
            assert(chunk_residue(hist, cs) == chunk_residue(self.pending@, cs));
            lemma_residue_short(entry, cs);
        }
        ProcessStep::Chunks(chunks)
    }
}

} // verus!
