use vstd::prelude::*;
use crate::color::Color;
use crate::errors::FrameError;
use crate::graphic_device::GraphicDevice;
use crate::registry::{DeviceState, DrawCall};
use crate::shape::{draw_calls_of, DrawBatch};

verus! {

/// Where the renderer stands in the cycle of one frame.
#[derive(Clone, Copy, Debug, PartialEq, Eq, Structural)]
pub enum FrameState {
    /// Between frames.
    Idle,
    /// The registry was swept; the frame waits for its target.
    Recording,
    /// The render pass was handed out; the frame waits for its submission.
    Submitted,
}

/// What the renderer is told.
#[derive(Clone, Copy, Debug, PartialEq, Eq, Structural)]
pub enum FrameEvent {
    /// A frame is due.
    Tick,
    /// The target of the frame was acquired; it is to be cleared to
    /// `clear_color`.
    FrameAcquired { clear_color: Color },
    /// No target was to be had for the frame.
    FrameLost,
    /// The commands of the frame were submitted to the queue.
    QueueSubmitted,
}

/// What becomes of the pending instances when a frame is skipped.
#[derive(Clone, Copy, Debug, PartialEq, Eq, Structural)]
pub enum SkipPolicy {
    /// They stay queued and are drawn with the next frame that finds its
    /// target, together with what is submitted until then.
    KeepQueued,
    /// They are discarded: a frame draws only what was submitted since the
    /// frame before it, rendered or not.
    DropStale,
}

/// One render pass: the colour that the target is cleared to, and the draw
/// calls of the frame in registry order.
#[derive(Debug)]
pub struct RenderPass {
    pub clear_color: Color,
    pub draws: Vec<DrawBatch>,
}

impl RenderPass {
    /// The draw calls of the pass as mathematical values.
    pub open spec fn draw_calls(&self) -> Seq<DrawCall> {
        draw_calls_of(self.draws@)
    }
}

/// What the renderer asks for in answer to an event.
#[derive(Debug)]
pub enum FrameAction {
    /// Release the buffers of the shapes `released`, then acquire the target
    /// of the frame.
    AcquireFrame { released: Vec<u64> },
    /// Encode `pass` and submit it.
    EncodePass { pass: RenderPass },
    /// Skip the frame and report `error`.
    SkipFrame { error: FrameError },
    /// The frame is over; nothing is left to do.
    FrameDone,
    /// The event has no place in the state the renderer is in; nothing
    /// changed.
    Ignored,
}

/// What one frame came to: the shapes that the sweep removed, and the render
/// pass of the frame or the reason why there is none.
#[derive(Debug)]
pub struct FrameReport {
    pub released: Vec<u64>,
    pub outcome: Result<RenderPass, FrameError>,
}

impl FrameState {
    /// The event has a place in this state.
    pub open spec fn accepts(self, event: FrameEvent) -> bool {
        match (self, event) {
            (FrameState::Idle, FrameEvent::Tick) => true,
            (FrameState::Recording, FrameEvent::FrameAcquired { .. }) => true,
            (FrameState::Recording, FrameEvent::FrameLost) => true,
            (FrameState::Submitted, FrameEvent::QueueSubmitted) => true,
            _ => false,
        }
    }

    /// The state after the event: a tick starts the recording of a frame, an
    /// acquired target leads on to its submission, a lost target and a
    /// submission lead back to rest, and an event out of place changes
    /// nothing.
    pub open spec fn after(self, event: FrameEvent) -> FrameState {
        match (self, event) {
            (FrameState::Idle, FrameEvent::Tick) => FrameState::Recording,
            (FrameState::Recording, FrameEvent::FrameAcquired { .. }) => FrameState::Submitted,
            (FrameState::Recording, FrameEvent::FrameLost) => FrameState::Idle,
            (FrameState::Submitted, FrameEvent::QueueSubmitted) => FrameState::Idle,
            _ => self,
        }
    }

    /// The device after the event in this state: a tick at rest sweeps the
    /// registry, an acquired target while recording empties every pending
    /// list, a lost target does so where stale instances are dropped, and
    /// nothing else touches the device.
    pub open spec fn device_after(self, event: FrameEvent, policy: SkipPolicy, device: DeviceState)
        -> DeviceState {
        match (self, event) {
            (FrameState::Idle, FrameEvent::Tick) => device.swept(),
            (FrameState::Recording, FrameEvent::FrameAcquired { .. }) => device.drained(),
            (FrameState::Recording, FrameEvent::FrameLost) => match policy {
                SkipPolicy::KeepQueued => device,
                SkipPolicy::DropStale => device.drained(),
            },
            _ => device,
        }
    }
}

/// The state machine that takes the device through one frame after the
/// other: from rest to recording to submitted and back to rest.
#[derive(Debug)]
pub struct FrameRenderer {
    state: FrameState,
    policy: SkipPolicy,
}

impl FrameRenderer {
    /// The state that the renderer is in.
    pub closed spec fn spec_state(&self) -> FrameState {
        self.state
    }

    /// What the renderer does with the pending instances of a skipped frame.
    pub closed spec fn spec_policy(&self) -> SkipPolicy {
        self.policy
    }

    /// A renderer at rest that keeps the instances of a skipped frame queued.
    pub fn new() -> (renderer: FrameRenderer)
        ensures
            renderer.state() == FrameState::Idle,
            renderer.policy() == SkipPolicy::KeepQueued,
    {
        FrameRenderer { state: FrameState::Idle, policy: SkipPolicy::KeepQueued }
    }

    /// A renderer at rest that treats the instances of a skipped frame as
    /// `policy` says.
    pub fn with_policy(policy: SkipPolicy) -> (renderer: FrameRenderer)
        ensures
            renderer.state() == FrameState::Idle,
            renderer.policy() == policy,
    {
        FrameRenderer { state: FrameState::Idle, policy }
    }

    /// What the renderer does with the pending instances of a skipped frame.
    #[verifier::when_used_as_spec(spec_policy)]
    pub fn policy(&self) -> (policy: SkipPolicy)
        ensures
            policy == self.spec_policy(),
    {
        self.policy
    }

    /// The state that the renderer is in.
    #[verifier::when_used_as_spec(spec_state)]
    pub fn state(&self) -> (state: FrameState)
        ensures
            state == self.spec_state(),
    {
        self.state
    }

    /// Takes one event and says what is to be done about it.
    pub fn step(&mut self, device: &mut GraphicDevice, event: FrameEvent) -> (action: FrameAction)
        ensures
            final(device).wf(),
            final(self).state() == old(self).state().after(event),
            final(self).policy() == old(self).policy(),
            final(device)@ == old(self).state().device_after(
                event,
                old(self).policy(),
                old(device)@,
            ),
            match action {
                FrameAction::AcquireFrame { released } => {
                    &&& old(self).state() == FrameState::Idle
                    &&& event == FrameEvent::Tick
                    &&& released@ == old(device)@.dead_ids()
                },
                FrameAction::EncodePass { pass } => {
                    &&& old(self).state() == FrameState::Recording
                    &&& event == (FrameEvent::FrameAcquired { clear_color: pass.clear_color })
                    &&& pass.draw_calls() == old(device)@.draw_calls()
                },
                FrameAction::SkipFrame { error } => {
                    &&& old(self).state() == FrameState::Recording
                    &&& event == FrameEvent::FrameLost
                    &&& error == FrameError::AcquisitionFailure
                },
                FrameAction::FrameDone => {
                    &&& old(self).state() == FrameState::Submitted
                    &&& event == FrameEvent::QueueSubmitted
                },
                FrameAction::Ignored => !old(self).state().accepts(event),
            },
    {
        proof {
            use_type_invariant(&*device);
        }
        match (self.state, event) {
            (FrameState::Idle, FrameEvent::Tick) => {
                let released = device.sweep();
                self.state = FrameState::Recording;
                FrameAction::AcquireFrame { released }
            },
            (FrameState::Recording, FrameEvent::FrameAcquired { clear_color }) => {
                let draws = device.drain();
                self.state = FrameState::Submitted;
                FrameAction::EncodePass { pass: RenderPass { clear_color, draws } }
            },
            (FrameState::Recording, FrameEvent::FrameLost) => {
                match self.policy {
                    SkipPolicy::KeepQueued => {},
                    SkipPolicy::DropStale => {
                        device.drain();
                    },
                }
                self.state = FrameState::Idle;
                FrameAction::SkipFrame { error: FrameError::AcquisitionFailure }
            },
            (FrameState::Submitted, FrameEvent::QueueSubmitted) => {
                self.state = FrameState::Idle;
                FrameAction::FrameDone
            },
            _ => FrameAction::Ignored,
        }
    }
}

} // verus!
