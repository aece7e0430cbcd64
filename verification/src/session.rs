//! One capture session: the facade the application holds, the pipeline task
//! between the queues, and the queue ends the backend drives.
//!
//! The session connects three concurrency domains — the real-time producer,
//! the pipeline task, and the application — through bounded queues. This
//! module is the session's state and transition logic: each operation below
//! is one step of one domain, and its contract states exactly what the step
//! observes and changes. The driving loop (awaiting the next block, running
//! the spectral transform, parking on a full queue) lives with the caller.
//!
//! Shutdown is cooperative and needs no explicit stop call: releasing the
//! facade severs the two queue ends it owns, the task observes the severed
//! consumer at its next step and exits (closing its own ingress end), and
//! the backend then observes the dead ingress on its next publish and the
//! drained playback queue on its next pull.

use vstd::prelude::*;

use crate::config::{AecConfig, Channels};
use crate::errors::AecError;
use crate::pipeline::{BlockPlan, PipelineTask, delivered_form};
use crate::queue::{BoundedQueue, OfferOutcome, PopOutcome, PublishOutcome};
use crate::resampler::{chunks_of, spec_chunk_size};

verus! {

/// Capacity of each of the session's queues, in blocks.
pub const QUEUE_CAPACITY: usize = 32;

/// A playback submission: samples (as canonical words) at a stated rate,
/// consumed once by the backend's output path as the echo reference.
pub struct PlaybackRequest {
    pub samples: Vec<u32>,
    pub sample_rate: u32,
}

/// What the backend reported when asked to start capture. Backends raise
/// environment and native-API failures only; configuration errors come from
/// validation, which runs before any backend is consulted.
pub enum BackendStart {
    /// Capture is running; the engine operates at `native_rate` Hz and
    /// delivers roughly `buffer_frames` frames per callback.
    Ready { native_rate: u32, buffer_frames: usize },
    /// Capture could not start.
    Failed(AecError),
}

/// A message delivered to the consumer: a processed block, or the single
/// terminal error of a failed session.
pub type Message = Result<Vec<u32>, AecError>;

/// Outcome of one pipeline-task step.
pub enum TaskPoll {
    /// One message was moved onto the outbound queue.
    Delivered,
    /// These chunks must be run through the spectral transform; hand the
    /// outputs to `task_deliver` (or a failure to `task_fail`).
    NeedsTransform(Vec<Vec<u32>>),
    /// The outbound queue is full: the task waits for the consumer.
    Suspended,
    /// Nothing to read yet.
    Idle,
    /// The task observed disconnect or end of input and is gone.
    Exited,
}

/// Outcome of a receive attempt on the facade.
pub enum Recv {
    /// The next message, in capture order.
    Message(Message),
    /// Nothing published yet; the pipeline is still running.
    Pending,
    /// The pipeline task has exited and the queue is drained.
    Ended,
}

/// Outcome of a playback submission on the facade.
pub enum SubmitOutcome {
    /// Exactly one request, carrying the given samples and rate, was
    /// enqueued on the backend's playback queue.
    Accepted,
    /// The queue is full: nothing was enqueued, and the request comes back
    /// so the caller can wait for the backend to drain and retry. The
    /// blocking submit of a facade is this same step repeated.
    Full(PlaybackRequest),
    /// The queue's consumer side — the backend's playback thread — is gone;
    /// the submission failed.
    Rejected(AecError),
}

/// One capture session's complete state.
pub struct CaptureSession {
    target_rate: u32,
    task: PipelineTask,
    task_live: bool,
    failing: bool,
    awaiting_transform: bool,
    pending_out: Option<Message>,
    ingress: BoundedQueue<Vec<u32>>,
    outbound: BoundedQueue<Message>,
    playback: BoundedQueue<PlaybackRequest>,
    released: bool,
}

impl CaptureSession {
    /// The resolved output rate: always the requested target rate.
    pub closed spec fn target(self) -> int {
        self.target_rate as int
    }

    /// The per-block processing stage.
    pub closed spec fn stage(self) -> PipelineTask {
        self.task
    }

    /// Whether delivered blocks are duplicated to interleaved stereo.
    pub open spec fn is_stereo(self) -> bool {
        self.stage().is_stereo()
    }

    /// Whether the pipeline task is still running.
    pub closed spec fn task_live(self) -> bool {
        self.task_live
    }

    /// Whether the message awaiting outbound capacity is the terminal error.
    pub closed spec fn failing(self) -> bool {
        self.failing
    }

    /// Whether the task handed out chunks and awaits the transform outputs.
    pub closed spec fn awaiting(self) -> bool {
        self.awaiting_transform
    }

    /// The message awaiting outbound capacity, if any.
    pub closed spec fn pending(self) -> Option<Message> {
        self.pending_out
    }

    /// The queue from the backend's real-time producer to the task.
    pub closed spec fn ingress_q(self) -> BoundedQueue<Vec<u32>> {
        self.ingress
    }

    /// The queue from the task to the facade's consumer.
    pub closed spec fn outbound_q(self) -> BoundedQueue<Message> {
        self.outbound
    }

    /// The queue from the facade to the backend's playback path.
    pub closed spec fn playback_q(self) -> BoundedQueue<PlaybackRequest> {
        self.playback
    }

    /// Whether the facade has been released.
    pub closed spec fn released(self) -> bool {
        self.released
    }

    pub open spec fn wf(self) -> bool {
        &&& self.queues_wf()
        &&& (!self.task_live() ==> !self.outbound_q().producer_live() && !self.ingress_q()
            .consumer_live() && self.pending() is None && !self.awaiting())
        &&& (self.awaiting() ==> self.pending() is None && !self.stage().engine().is_identity())
        &&& (self.failing() ==> self.pending() is Some)
        &&& (self.pending() is Some ==> !self.awaiting())
    }

    /// The fixed configuration and capacities a step never changes.
    pub open spec fn same_shape(pre: Self, post: Self) -> bool {
        &&& post.target() == pre.target()
        &&& post.is_stereo() == pre.is_stereo()
        &&& post.stage().engine().source_rate() == pre.stage().engine().source_rate()
        &&& post.stage().engine().target_rate() == pre.stage().engine().target_rate()
        &&& post.ingress_q().capacity() == pre.ingress_q().capacity()
        &&& post.outbound_q().capacity() == pre.outbound_q().capacity()
        &&& post.playback_q().capacity() == pre.playback_q().capacity()
    }

    /// The parts of well-formedness that do not mention the task's own
    /// flags: the stage and queues are sound, and a released facade has
    /// detached from its two queue ends.
    pub open spec fn queues_wf(self) -> bool {
        &&& self.stage().wf()
        &&& self.ingress_q().wf()
        &&& self.outbound_q().wf()
        &&& self.playback_q().wf()
        &&& (self.released() ==> !self.outbound_q().consumer_live() && !self.playback_q()
            .producer_live())
    }

    /// Observationally identical states: a step that ensures this changed
    /// nothing a caller can see.
    pub open spec fn unchanged_state(pre: Self, post: Self) -> bool {
        &&& Self::same_shape(pre, post)
        &&& post.stage() == pre.stage()
        &&& post.task_live() == pre.task_live()
        &&& post.failing() == pre.failing()
        &&& post.awaiting() == pre.awaiting()
        &&& post.pending() == pre.pending()
        &&& post.released() == pre.released()
        &&& pre.ingress_q().same_state(post.ingress_q())
        &&& pre.outbound_q().same_state(post.outbound_q())
        &&& pre.playback_q().same_state(post.playback_q())
    }

    /// The resolved output rate of delivered audio: the requested target
    /// rate, never the raw native rate.
    pub fn output_sample_rate(&self) -> (r: u32)
        ensures
            r as int == self.target(),
    {
        self.target_rate
    }

    /// One publish from the backend's real-time producer.
    ///
    /// Never blocks and never grows the queue past its capacity: a full
    /// queue drops the newest block, and a severed consumer (the task has
    /// exited) is reported so the backend can tear itself down.
    pub fn backend_publish(&mut self, block: Vec<u32>) -> (r: PublishOutcome)
        requires
            old(self).wf(),
        ensures
            final(self).wf(),
            Self::same_shape(*old(self), *final(self)),
            final(self).outbound_q() == old(self).outbound_q(),
            final(self).playback_q() == old(self).playback_q(),
            final(self).task_live() == old(self).task_live(),
            final(self).released() == old(self).released(),
            final(self).awaiting() == old(self).awaiting(),
            final(self).pending() == old(self).pending(),
            final(self).stage() == old(self).stage(),
            final(self).ingress_q().producer_live() == old(self).ingress_q().producer_live(),
            final(self).ingress_q().consumer_live() == old(self).ingress_q().consumer_live(),
            !old(self).ingress_q().consumer_live() ==> r == PublishOutcome::Disconnected && final(self).ingress_q().contents() == old(self).ingress_q().contents(),
            old(self).ingress_q().consumer_live() && old(self).ingress_q().contents().len() < old(self).ingress_q().capacity() ==> r == PublishOutcome::Accepted && final(self).ingress_q().contents() == old(self).ingress_q().contents().push(block),
            old(self).ingress_q().consumer_live() && old(self).ingress_q().contents().len() >= old(self).ingress_q().capacity() ==> r == PublishOutcome::DroppedNewest && final(self).ingress_q().contents() == old(self).ingress_q().contents(),
    {
        self.ingress.publish_lossy(block)
    }

    /// The post-state of the pipeline task exiting: it detaches from both
    /// of its queues, so the backend observes a dead ingress consumer on
    /// its next publish.
    pub open spec fn exited(self) -> bool {
        &&& !self.task_live()
        &&& !self.ingress_q().consumer_live()
        &&& !self.outbound_q().producer_live()
    }

    fn exit_task(&mut self)
        requires
            old(self).queues_wf(),
        ensures
            final(self).wf(),
            Self::same_shape(*old(self), *final(self)),
            final(self).exited(),
            final(self).released() == old(self).released(),
            final(self).playback_q() == old(self).playback_q(),
            final(self).ingress_q().contents() == old(self).ingress_q().contents(),
            final(self).ingress_q().producer_live() == old(self).ingress_q().producer_live(),
            final(self).outbound_q().contents() == old(self).outbound_q().contents(),
            final(self).outbound_q().consumer_live() == old(self).outbound_q().consumer_live(),
            final(self).stage() == old(self).stage(),
    {
        self.task_live = false;
        self.failing = false;
        self.awaiting_transform = false;
        self.pending_out = None;
        self.ingress.close_consumer();
        self.outbound.close_producer();
    }

    /// One step of the pipeline task.
    ///
    /// The task first observes a severed consumer — after the facade's
    /// release it exits on this very step, detaching from the ingress queue.
    /// Otherwise it retries a message parked on backpressure, and then reads
    /// the next raw block: end of input makes it exit; an identity-rate
    /// block is processed and published whole; otherwise the block feeds the
    /// resampling engine and any whole chunks come back for the transform.
    pub fn task_poll(&mut self) -> (r: TaskPoll)
        requires
            old(self).wf(),
            !old(self).awaiting(),
        ensures
            final(self).wf(),
            Self::same_shape(*old(self), *final(self)),
            final(self).released() == old(self).released(),
            final(self).playback_q() == old(self).playback_q(),
            final(self).outbound_q().consumer_live() == old(self).outbound_q().consumer_live(),
            final(self).ingress_q().producer_live() == old(self).ingress_q().producer_live(),
            // A finished task stays finished.
            !old(self).task_live() ==> (r matches TaskPoll::Exited && *final(self) == *old(self)),
            // The task observes the severed consumer at its next step and exits.
            old(self).task_live() && !old(self).outbound_q().consumer_live() ==> (r
                matches TaskPoll::Exited && final(self).exited() && final(self).outbound_q().contents() == old(self).outbound_q().contents() && final(self).ingress_q().contents() == old(self).ingress_q().contents()),
            // Backpressure retry: a parked message goes out as soon as there
            // is room; delivering the terminal error ends the task.
            old(self).task_live() && old(self).outbound_q().consumer_live() && old(self).pending()
                is Some ==> {
                let m = old(self).pending()->Some_0;
                &&& old(self).outbound_q().contents().len() < old(self).outbound_q().capacity()
                    ==> (r matches TaskPoll::Delivered && final(self).outbound_q().contents()
                    == old(self).outbound_q().contents().push(m) && final(self).pending() is None
                    && final(self).ingress_q().contents() == old(self).ingress_q().contents() && (
                    old(self).failing() ==> final(self).exited()) && (!old(self).failing()
                    ==> final(self).task_live()))
                &&& old(self).outbound_q().contents().len() >= old(self).outbound_q().capacity()
                    ==> (r matches TaskPoll::Suspended && Self::unchanged_state(
                        *old(self),
                        *final(self),
                    ))
            },
            // Reading the ingress queue.
            old(self).task_live() && old(self).outbound_q().consumer_live() && old(self).pending()
                is None ==> {
                &&& old(self).ingress_q().contents().len() == 0 && old(self).ingress_q()
                    .producer_live() ==> (r matches TaskPoll::Idle && Self::unchanged_state(
                    *old(self),
                    *final(self),
                ))
                &&& old(self).ingress_q().contents().len() == 0 && !old(self).ingress_q()
                    .producer_live() ==> (r matches TaskPoll::Exited && final(self).exited()
                    && final(self).outbound_q().contents() == old(self).outbound_q().contents())
                &&& old(self).ingress_q().contents().len() > 0 ==> {
                    let block = old(self).ingress_q().contents()[0]@;
                    &&& final(self).ingress_q().contents() == old(self).ingress_q().contents().skip(
                        1,
                    )
                    &&& old(self).stage().engine().is_identity() ==> {
                        &&& old(self).outbound_q().contents().len() < old(self).outbound_q().capacity() ==> (r matches TaskPoll::Delivered && final(self).task_live() && (exists|out: Vec<u32>|
                            final(self).outbound_q().contents() == old(self).outbound_q().contents().push(Ok(out)) && out@ == delivered_form(
                                block,
                                old(self).is_stereo(),
                            )) && final(self).pending() is None)
                        &&& old(self).outbound_q().contents().len() >= old(self).outbound_q().capacity() ==> (r matches TaskPoll::Suspended && final(self).task_live() && final(self).outbound_q().contents() == old(self).outbound_q().contents() && (final(self).pending() matches Some(p)
                            && p matches Ok(out) && out@ == delivered_form(
                            block,
                            old(self).is_stereo(),
                        )))
                    }
                    &&& !old(self).stage().engine().is_identity() ==> (r
                        matches TaskPoll::NeedsTransform(chunks) && final(self).task_live()
                        && final(self).awaiting() && final(self).outbound_q().contents() == old(self).outbound_q().contents() && chunks.deep_view() == chunks_of(
                        old(self).stage().engine().buffered() + block,
                        old(self).stage().engine().chunk_len(),
                    ) && final(self).stage().engine().consumed() == old(self).stage().engine().consumed() + block)
                }
            },
    {
        if !self.task_live {
            return TaskPoll::Exited;
        }
        if !self.outbound.consumer_attached() {
            self.exit_task();
            return TaskPoll::Exited;
        }
        let parked = self.pending_out.take();
        if let Some(m) = parked {
            match self.outbound.offer(m) {
                OfferOutcome::Accepted => {
                    if self.failing {
                        self.exit_task();
                    }
                    return TaskPoll::Delivered;
                },
                OfferOutcome::Full(back) => {
                    self.pending_out = Some(back);
                    return TaskPoll::Suspended;
                },
                OfferOutcome::Disconnected => {
                    self.exit_task();
                    return TaskPoll::Exited;
                },
            }
        }
        match self.ingress.pop() {
            PopOutcome::Closed => {
                self.exit_task();
                TaskPoll::Exited
            },
            PopOutcome::Empty => TaskPoll::Idle,
            PopOutcome::Item(block) => {
                match self.task.begin_block(&block) {
                    BlockPlan::Ready(out) => {
                        let ghost gout = out;
                        match self.outbound.offer(Ok(out)) {
                            OfferOutcome::Accepted => {
                                proof {
                                    assert(self.outbound_q().contents() == old(
                                        self,
                                    ).outbound_q().contents().push(Ok(gout)));
                                }
                                TaskPoll::Delivered
                            },
                            OfferOutcome::Full(back) => {
                                self.pending_out = Some(back);
                                TaskPoll::Suspended
                            },
                            OfferOutcome::Disconnected => {
                                self.exit_task();
                                TaskPoll::Exited
                            },
                        }
                    },
                    BlockPlan::NeedsTransform(chunks) => {
                        self.awaiting_transform = true;
                        TaskPoll::NeedsTransform(chunks)
                    },
                }
            },
        }
    }

    /// Hands the spectral transform's outputs — one per chunk from the last
    /// `NeedsTransform`, in order — back to the task, which assembles and
    /// publishes them as one message.
    pub fn task_deliver(&mut self, transformed: &Vec<Vec<u32>>) -> (r: TaskPoll)
        requires
            old(self).wf(),
            old(self).awaiting(),
        ensures
            final(self).wf(),
            Self::same_shape(*old(self), *final(self)),
            final(self).released() == old(self).released(),
            final(self).playback_q() == old(self).playback_q(),
            final(self).ingress_q().contents() == old(self).ingress_q().contents(),
            final(self).ingress_q().producer_live() == old(self).ingress_q().producer_live(),
            final(self).outbound_q().consumer_live() == old(self).outbound_q().consumer_live(),
            final(self).stage() == old(self).stage(),
            !final(self).awaiting(),
            !old(self).outbound_q().consumer_live() ==> (r matches TaskPoll::Exited && final(self).exited()
                && final(self).outbound_q().contents() == old(self).outbound_q().contents()),
            old(self).outbound_q().consumer_live() && old(self).outbound_q().contents().len() < old(self).outbound_q().capacity() ==> (r
                matches TaskPoll::Delivered && final(self).task_live() && final(self).pending() is None
                && final(self).outbound_q().contents().len() == old(self).outbound_q().contents().len() + 1
                && final(self).outbound_q().contents().drop_last() == old(self).outbound_q().contents()
                && (final(self).outbound_q().contents().last() matches Ok(out) && out@
                    == delivered_form(transformed.deep_view().flatten(), old(self).is_stereo()))),
            old(self).outbound_q().consumer_live() && old(self).outbound_q().contents().len() >= old(self).outbound_q().capacity() ==> (r
                matches TaskPoll::Suspended && final(self).task_live()
                && final(self).outbound_q().contents() == old(self).outbound_q().contents()
                && (final(self).pending() matches Some(p) && p matches Ok(out) && out@
                    == delivered_form(transformed.deep_view().flatten(), old(self).is_stereo()))),
    {
        self.awaiting_transform = false;
        let out = self.task.finish_block(transformed);
        let ghost gout = out;
        match self.outbound.offer(Ok(out)) {
            OfferOutcome::Accepted => {
                proof {
                    assert(self.outbound_q().contents() == old(self).outbound_q().contents().push(
                        Ok(gout),
                    ));
                    assert(self.outbound_q().contents().drop_last() =~= old(
                        self,
                    ).outbound_q().contents());
                }
                TaskPoll::Delivered
            },
            OfferOutcome::Full(back) => {
                self.pending_out = Some(back);
                TaskPoll::Suspended
            },
            OfferOutcome::Disconnected => {
                self.exit_task();
                TaskPoll::Exited
            },
        }
    }

    /// Reports a spectral-transform failure for the chunks of the last
    /// `NeedsTransform`: the task publishes one terminal error message and
    /// stops permanently. The failure is fatal for the session; recovery
    /// means starting a new one.
    pub fn task_fail(&mut self, reason: String) -> (r: TaskPoll)
        requires
            old(self).wf(),
            old(self).awaiting(),
        ensures
            final(self).wf(),
            Self::same_shape(*old(self), *final(self)),
            final(self).released() == old(self).released(),
            final(self).playback_q() == old(self).playback_q(),
            final(self).ingress_q().contents() == old(self).ingress_q().contents(),
            final(self).ingress_q().producer_live() == old(self).ingress_q().producer_live(),
            final(self).outbound_q().consumer_live() == old(self).outbound_q().consumer_live(),
            !final(self).awaiting(),
            !final(self).task_live() || final(self).failing(),
            !old(self).outbound_q().consumer_live() ==> (r matches TaskPoll::Exited && final(self).exited()
                && final(self).outbound_q().contents() == old(self).outbound_q().contents()),
            old(self).outbound_q().consumer_live() && old(self).outbound_q().contents().len() < old(self).outbound_q().capacity() ==> (r
                matches TaskPoll::Delivered && final(self).exited()
                && final(self).outbound_q().contents().len() == old(self).outbound_q().contents().len() + 1
                && final(self).outbound_q().contents().drop_last() == old(self).outbound_q().contents()
                && (final(self).outbound_q().contents().last() matches Err(e) && e
                    matches AecError::BackendError(m) && m@ == reason@)),
            old(self).outbound_q().consumer_live() && old(self).outbound_q().contents().len() >= old(self).outbound_q().capacity() ==> (r
                matches TaskPoll::Suspended && final(self).task_live() && final(self).failing()
                && final(self).outbound_q().contents() == old(self).outbound_q().contents()
                && (final(self).pending() matches Some(p) && p matches Err(e) && e
                    matches AecError::BackendError(m) && m@ == reason@)),
    {
        self.awaiting_transform = false;
        let msg: Message = Err(AecError::BackendError(reason));
        let ghost gmsg = msg;
        match self.outbound.offer(msg) {
            OfferOutcome::Accepted => {
                proof {
                    assert(self.outbound_q().contents() == old(self).outbound_q().contents().push(
                        gmsg,
                    ));
                    assert(self.outbound_q().contents().drop_last() =~= old(
                        self,
                    ).outbound_q().contents());
                }
                self.exit_task();
                TaskPoll::Delivered
            },
            OfferOutcome::Full(back) => {
                self.pending_out = Some(back);
                self.failing = true;
                TaskPoll::Suspended
            },
            OfferOutcome::Disconnected => {
                self.exit_task();
                TaskPoll::Exited
            },
        }
    }

    /// Non-blocking receive on the facade: the next message in strict
    /// capture order, or `Pending` while the pipeline is still producing,
    /// or `Ended` once the task has exited and the queue is drained. The
    /// suspending and thread-blocking receive operations are this same step
    /// repeated whenever the queue changes.
    pub fn try_receive(&mut self) -> (r: Recv)
        requires
            old(self).wf(),
            !old(self).released(),
        ensures
            final(self).wf(),
            Self::same_shape(*old(self), *final(self)),
            final(self).released() == old(self).released(),
            final(self).playback_q() == old(self).playback_q(),
            final(self).ingress_q() == old(self).ingress_q(),
            final(self).stage() == old(self).stage(),
            final(self).task_live() == old(self).task_live(),
            final(self).pending() == old(self).pending(),
            final(self).awaiting() == old(self).awaiting(),
            final(self).outbound_q().producer_live() == old(self).outbound_q().producer_live(),
            final(self).outbound_q().consumer_live() == old(self).outbound_q().consumer_live(),
            old(self).outbound_q().contents().len() > 0 ==> (r matches Recv::Message(m) && m
                == old(self).outbound_q().contents()[0] && final(self).outbound_q().contents()
                == old(self).outbound_q().contents().skip(1)),
            old(self).outbound_q().contents().len() == 0 && old(self).outbound_q().producer_live()
                ==> (r matches Recv::Pending && final(self).outbound_q().contents() == old(self).outbound_q().contents()),
            old(self).outbound_q().contents().len() == 0 && !old(self).outbound_q().producer_live()
                ==> (r matches Recv::Ended && final(self).outbound_q().contents() == old(self).outbound_q().contents()),
    {
        match self.outbound.pop() {
            PopOutcome::Item(m) => Recv::Message(m),
            PopOutcome::Empty => Recv::Pending,
            PopOutcome::Closed => Recv::Ended,
        }
    }

    /// Submits playback audio to the backend's output path, where the
    /// native engine uses it as the echo reference.
    ///
    /// Acceptance means exactly one request carrying these samples at this
    /// rate was enqueued; the submission is rejected exactly when the
    /// queue's consumer side — the backend's playback thread — is gone. A
    /// full queue enqueues nothing and returns the request, so the caller
    /// can wait for the backend to drain and retry; no request is ever
    /// dropped silently.
    pub fn submit_playback(&mut self, samples: Vec<u32>, sample_rate: u32) -> (r: SubmitOutcome)
        requires
            old(self).wf(),
            !old(self).released(),
        ensures
            final(self).wf(),
            Self::same_shape(*old(self), *final(self)),
            final(self).released() == old(self).released(),
            final(self).ingress_q() == old(self).ingress_q(),
            final(self).outbound_q() == old(self).outbound_q(),
            final(self).stage() == old(self).stage(),
            final(self).task_live() == old(self).task_live(),
            final(self).playback_q().producer_live() == old(self).playback_q().producer_live(),
            final(self).playback_q().consumer_live() == old(self).playback_q().consumer_live(),
            !old(self).playback_q().consumer_live() <==> (r matches SubmitOutcome::Rejected(e) && e
                matches AecError::BackendError(m) && m@ == "playback channel disconnected"@),
            !old(self).playback_q().consumer_live() ==> final(self).playback_q().contents() == old(self).playback_q().contents(),
            old(self).playback_q().consumer_live() && old(self).playback_q().contents().len()
                < old(self).playback_q().capacity() ==> (r matches SubmitOutcome::Accepted
                && final(self).playback_q().contents().len() == old(self).playback_q().contents().len() + 1
                && final(self).playback_q().contents().drop_last() == old(self).playback_q().contents()
                && final(self).playback_q().contents().last().samples@ == samples@
                && final(self).playback_q().contents().last().sample_rate == sample_rate),
            old(self).playback_q().consumer_live() && old(self).playback_q().contents().len()
                >= old(self).playback_q().capacity() ==> (r matches SubmitOutcome::Full(back)
                && back.samples@ == samples@ && back.sample_rate == sample_rate
                && final(self).playback_q().contents() == old(self).playback_q().contents()),
    {
        let request = PlaybackRequest { samples, sample_rate };
        let ghost greq = request;
        match self.playback.offer(request) {
            OfferOutcome::Accepted => {
                proof {
                    assert(self.playback_q().contents() == old(self).playback_q().contents().push(
                        greq,
                    ));
                    assert(self.playback_q().contents().drop_last() =~= old(
                        self,
                    ).playback_q().contents());
                }
                SubmitOutcome::Accepted
            },
            OfferOutcome::Full(back) => SubmitOutcome::Full(back),
            OfferOutcome::Disconnected => {
                SubmitOutcome::Rejected(
                    AecError::BackendError(String::from_str("playback channel disconnected")),
                )
            },
        }
    }

    /// One pull by the backend's playback thread: the oldest submitted
    /// request, `Empty` while the facade is still attached, and `Closed` —
    /// the signal to tear down — once the facade is released and the queue
    /// has drained.
    pub fn backend_playback_poll(&mut self) -> (r: PopOutcome<PlaybackRequest>)
        requires
            old(self).wf(),
        ensures
            final(self).wf(),
            Self::same_shape(*old(self), *final(self)),
            final(self).released() == old(self).released(),
            final(self).ingress_q() == old(self).ingress_q(),
            final(self).outbound_q() == old(self).outbound_q(),
            final(self).stage() == old(self).stage(),
            final(self).task_live() == old(self).task_live(),
            final(self).playback_q().producer_live() == old(self).playback_q().producer_live(),
            final(self).playback_q().consumer_live() == old(self).playback_q().consumer_live(),
            old(self).playback_q().contents().len() > 0 ==> (r matches PopOutcome::Item(x) && x
                == old(self).playback_q().contents()[0] && final(self).playback_q().contents()
                == old(self).playback_q().contents().skip(1)),
            old(self).playback_q().contents().len() == 0 && old(self).playback_q().producer_live()
                ==> (r matches PopOutcome::Empty && final(self).playback_q().contents() == old(self).playback_q().contents()),
            old(self).playback_q().contents().len() == 0 && !old(self).playback_q().producer_live()
                ==> (r matches PopOutcome::Closed && final(self).playback_q().contents() == old(self).playback_q().contents()),
            old(self).released() && old(self).playback_q().contents().len() == 0 ==> r
                matches PopOutcome::Closed,
    {
        self.playback.pop()
    }

    /// Releases the facade: severs the outbound consumer end and the
    /// playback producer end before returning, so the pipeline task and the
    /// backend observe disconnect on their next step and exit. Idempotent —
    /// a defensive second release is a no-op.
    pub fn release(&mut self)
        requires
            old(self).wf(),
        ensures
            final(self).wf(),
            Self::same_shape(*old(self), *final(self)),
            final(self).released(),
            !final(self).outbound_q().consumer_live(),
            !final(self).playback_q().producer_live(),
            final(self).ingress_q() == old(self).ingress_q(),
            final(self).stage() == old(self).stage(),
            final(self).task_live() == old(self).task_live(),
            final(self).pending() == old(self).pending(),
            final(self).awaiting() == old(self).awaiting(),
            final(self).failing() == old(self).failing(),
            final(self).outbound_q().contents() == old(self).outbound_q().contents(),
            final(self).outbound_q().producer_live() == old(self).outbound_q().producer_live(),
            final(self).playback_q().contents() == old(self).playback_q().contents(),
            final(self).playback_q().consumer_live() == old(self).playback_q().consumer_live(),
    {
        self.outbound.close_consumer();
        self.playback.close_producer();
        self.released = true;
    }

    /// The backend's own teardown after it observes disconnect: it detaches
    /// from the ingress producer end and the playback consumer end, after
    /// which playback submission fails and no further block can arrive.
    pub fn backend_stop(&mut self)
        requires
            old(self).wf(),
        ensures
            final(self).wf(),
            Self::same_shape(*old(self), *final(self)),
            final(self).released() == old(self).released(),
            final(self).stage() == old(self).stage(),
            final(self).task_live() == old(self).task_live(),
            final(self).pending() == old(self).pending(),
            final(self).awaiting() == old(self).awaiting(),
            !final(self).ingress_q().producer_live(),
            !final(self).playback_q().consumer_live(),
            final(self).ingress_q().contents() == old(self).ingress_q().contents(),
            final(self).ingress_q().consumer_live() == old(self).ingress_q().consumer_live(),
            final(self).outbound_q() == old(self).outbound_q(),
            final(self).playback_q().contents() == old(self).playback_q().contents(),
            final(self).playback_q().producer_live() == old(self).playback_q().producer_live(),
    {
        self.ingress.close_producer();
        self.playback.close_consumer();
    }
}

/// Memory of a session stays bounded in every reachable state: no queue
/// ever holds more than its fixed capacity, however long the consumer
/// stays away.
pub proof fn lemma_bounded_memory(s: CaptureSession)
    requires
        s.wf(),
    ensures
        s.ingress_q().contents().len() <= s.ingress_q().capacity(),
        s.outbound_q().contents().len() <= s.outbound_q().capacity(),
        s.playback_q().contents().len() <= s.playback_q().capacity(),
{
}

/// Starts a session from a validated configuration and the backend's
/// report.
///
/// The configuration is checked first: a zero sample rate is rejected
/// before anything else is considered. A backend failure surfaces
/// unchanged. Otherwise the session is built with a resampling engine
/// for the native/target rate pair — failing with a backend error when
/// that pair cannot drive the engine — with all three queues empty and
/// attached, and with the resolved output rate equal to the requested
/// rate, never the native one.
pub fn start_session(config: &AecConfig, backend: BackendStart) -> (r: Result<
    CaptureSession,
    AecError,
>)
    ensures
        config.sample_rate == 0 ==> (r matches Err(AecError::InvalidConfig(m)) && m@
            == "sample_rate must be non-zero"@),
        config.sample_rate > 0 ==> match backend {
            BackendStart::Failed(e) => r == Err::<CaptureSession, AecError>(e),
            BackendStart::Ready { native_rate, .. } => {
                &&& ((native_rate == config.sample_rate || spec_chunk_size(native_rate as int)
                    >= 1) <==> r is Ok)
                &&& (r matches Err(e) ==> e matches AecError::BackendError(_))
                &&& (r matches Ok(s) ==> {
                    &&& s.wf()
                    &&& !s.released()
                    &&& s.task_live()
                    &&& !s.awaiting()
                    &&& !s.failing()
                    &&& s.pending() is None
                    &&& s.target() == config.sample_rate
                    &&& s.is_stereo() == (config.channels == Channels::Stereo)
                    &&& s.stage().engine().source_rate() == native_rate
                    &&& s.stage().engine().target_rate() == config.sample_rate
                    &&& s.stage().engine().consumed() == Seq::<u32>::empty()
                    &&& s.ingress_q().contents() == Seq::<Vec<u32>>::empty()
                    &&& s.outbound_q().contents() == Seq::<Message>::empty()
                    &&& s.playback_q().contents() == Seq::<PlaybackRequest>::empty()
                    &&& s.ingress_q().producer_live() && s.ingress_q().consumer_live()
                    &&& s.outbound_q().producer_live() && s.outbound_q().consumer_live()
                    &&& s.playback_q().producer_live() && s.playback_q().consumer_live()
                    &&& s.ingress_q().capacity() == QUEUE_CAPACITY
                    &&& s.outbound_q().capacity() == QUEUE_CAPACITY
                    &&& s.playback_q().capacity() == QUEUE_CAPACITY
                })
            },
        },
{
    crate::config::validate_config(config)?;
    match backend {
        BackendStart::Failed(e) => Err(e),
        BackendStart::Ready { native_rate, buffer_frames: _ } => {
            let task = PipelineTask::new(native_rate, config.sample_rate, config.channels)?;
            Ok(
                CaptureSession {
                    target_rate: config.sample_rate,
                    task,
                    task_live: true,
                    failing: false,
                    awaiting_transform: false,
                    pending_out: None,
                    ingress: BoundedQueue::new(QUEUE_CAPACITY),
                    outbound: BoundedQueue::new(QUEUE_CAPACITY),
                    playback: BoundedQueue::new(QUEUE_CAPACITY),
                    released: false,
                },
            )
        },
    }
}


} // verus!
