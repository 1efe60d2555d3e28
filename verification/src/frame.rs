//! The frame lifecycle: what the presentation backend has to do next.
//!
//! One frame is acquire, record, submit, present. The backend does the
//! work; the controller here decides. The backend reports what happened as
//! a [`FrameEvent`] and is told what to do as a [`Decision`]:
//!
//! ```text
//! Idle --redraw--> Acquiring --image--> Recording --recorded--> Submitted
//!   ^                  |                                            |
//!   |                  | no image: the frame is skipped             | submitted
//!   |<-----------------+                                            v
//!   +<-------------------------presented---------------------- Presented
//! ```
//!
//! A state is named after the step that the backend was last told to take.

use vstd::prelude::*;

verus! {

/// Where a frame stands.
#[derive(Clone, Copy, Debug, PartialEq, Eq, Structural)]
pub enum FrameState {
    /// No frame is in flight.
    Idle,
    /// The backend was told to acquire the next presentable image.
    Acquiring,
    /// The backend was told to record the pass of this frame.
    Recording,
    /// The backend was told to close the pass and submit the recorded work.
    Submitted,
    /// The backend was told to present the acquired image.
    Presented,
}

/// Why the surface gave no image.
#[derive(Clone, Copy, Debug, PartialEq, Eq, Structural)]
pub enum AcquireError {
    /// The image did not arrive in time.
    Timeout,
    /// The surface has changed under the configuration and has to be
    /// configured again.
    Outdated,
    /// The surface was lost and has to be configured again.
    Lost,
    /// No memory is left for a new image.
    OutOfMemory,
    /// The surface failed for a reason that it did not tell.
    Other,
}

/// What the backend reports to the controller.
#[derive(Clone, Copy, Debug, PartialEq, Eq, Structural)]
pub enum FrameEvent {
    /// The window asks for a new frame.
    RedrawRequested,
    /// The surface gave the next presentable image.
    ImageAcquired,
    /// The surface gave no image.
    AcquireFailed(AcquireError),
    /// The pass of this frame has been recorded.
    PassRecorded,
    /// The recorded work has been submitted to the queue.
    WorkSubmitted,
    /// The image has been presented.
    ImagePresented,
    /// The device is gone for good.
    DeviceLost,
}

/// Why a frame was skipped.
#[derive(Clone, Copy, Debug, PartialEq, Eq, Structural)]
pub enum SkipReason {
    /// The surface has no area.
    NotPresentable,
    /// The image did not arrive in time.
    Timeout,
    /// The surface was outdated.
    Outdated,
    /// The surface was lost, for the first time in a row.
    SurfaceLost,
    /// The surface failed for a reason that it did not tell.
    Unspecified,
}

/// An error that ends the session.
#[derive(Clone, Copy, Debug, PartialEq, Eq, Structural)]
pub enum FatalError {
    /// The surface was lost again right after it had been configured anew.
    SurfaceLost,
    /// No memory is left for a new image.
    OutOfMemory,
    /// The device is gone for good.
    DeviceLost,
}

/// What the controller decides on an event.
#[derive(Clone, Copy, Debug, PartialEq, Eq, Structural)]
pub enum Decision {
    /// Acquire the next presentable image from the surface.
    Acquire,
    /// Record the one pass of this frame.
    Record,
    /// Close the pass and submit the recorded work.
    Submit,
    /// Present the acquired image.
    Present,
    /// The frame is on screen. Nothing is left to do.
    Finish,
    /// Drop this frame and try again at the next redraw. Where
    /// `reconfigure` is set, apply the configuration to the surface again
    /// before that.
    Skip { reason: SkipReason, reconfigure: bool },
    /// Give up: the error goes to the caller, who ends the session.
    Fail(FatalError),
    /// The event does not belong to the state the frame is in. Nothing has
    /// changed.
    Ignore,
}

impl Decision {
    /// Whether the decision ends the frame without an image on screen.
    pub open spec fn drops_frame(self) -> bool {
        self is Skip || self is Fail
    }
}

/// The state of the frame lifecycle.
#[derive(Clone, Copy, Debug, PartialEq, Eq, Structural)]
pub struct FrameController {
    /// Where the frame stands.
    pub state: FrameState,
    /// Whether the last attempt to acquire an image found the surface lost.
    pub surface_lost: bool,
}

impl FrameController {
    /// The controller between two frames, with a surface that is not known
    /// to be lost.
    pub open spec fn idle() -> FrameController {
        FrameController { state: FrameState::Idle, surface_lost: false }
    }

    /// The controller in the given state, all else unchanged.
    pub open spec fn at(self, state: FrameState) -> FrameController {
        FrameController { state, surface_lost: self.surface_lost }
    }

    /// What failing to acquire an image leads to. A timeout and an error
    /// that was not told drop the frame. An outdated surface drops the frame and
    /// is configured again. A lost surface is configured again once; lost twice
    /// in a row it is lost for good. Without memory there is no going on.
    pub open spec fn after_failure(self, error: AcquireError) -> (FrameController, Decision) {
        let idle = self.at(FrameState::Idle);
        match error {
            AcquireError::Timeout => (
                idle,
                Decision::Skip { reason: SkipReason::Timeout, reconfigure: false },
            ),
            AcquireError::Outdated => (
                idle,
                Decision::Skip { reason: SkipReason::Outdated, reconfigure: true },
            ),
            AcquireError::Lost => if self.surface_lost {
                (idle, Decision::Fail(FatalError::SurfaceLost))
            } else {
                (
                    FrameController { state: FrameState::Idle, surface_lost: true },
                    Decision::Skip { reason: SkipReason::SurfaceLost, reconfigure: true },
                )
            },
            AcquireError::OutOfMemory => (idle, Decision::Fail(FatalError::OutOfMemory)),
            AcquireError::Other => (
                idle,
                Decision::Skip { reason: SkipReason::Unspecified, reconfigure: false },
            ),
        }
    }

    /// The state after `event` and the decision on it, for a surface that
    /// is `presentable` or not.
    pub open spec fn next(self, event: FrameEvent, presentable: bool) -> (
        FrameController,
        Decision,
    ) {
        match (self.state, event) {
            (_, FrameEvent::DeviceLost) => (
                self.at(FrameState::Idle),
                Decision::Fail(FatalError::DeviceLost),
            ),
            (FrameState::Idle, FrameEvent::RedrawRequested) => if presentable {
                (self.at(FrameState::Acquiring), Decision::Acquire)
            } else {
                (self, Decision::Skip { reason: SkipReason::NotPresentable, reconfigure: false })
            },
            (FrameState::Acquiring, FrameEvent::ImageAcquired) => (
                FrameController { state: FrameState::Recording, surface_lost: false },
                Decision::Record,
            ),
            (FrameState::Acquiring, FrameEvent::AcquireFailed(error)) => self.after_failure(error),
            (FrameState::Recording, FrameEvent::PassRecorded) => (
                self.at(FrameState::Submitted),
                Decision::Submit,
            ),
            (FrameState::Submitted, FrameEvent::WorkSubmitted) => (
                self.at(FrameState::Presented),
                Decision::Present,
            ),
            (FrameState::Presented, FrameEvent::ImagePresented) => (
                self.at(FrameState::Idle),
                Decision::Finish,
            ),
            _ => (self, Decision::Ignore),
        }
    }

    /// The controller between two frames.
    pub fn new() -> (c: FrameController)
        ensures
            c == FrameController::idle(),
    {
        FrameController { state: FrameState::Idle, surface_lost: false }
    }

    /// Whether no frame is in flight.
    pub fn is_idle(&self) -> (idle: bool)
        ensures
            idle == (self.state == FrameState::Idle),
    {
        match self.state {
            FrameState::Idle => true,
            _ => false,
        }
    }

    /// Decides what failing to acquire an image leads to, and moves there.
    fn fail_to_acquire(&mut self, error: AcquireError) -> (decision: Decision)
        ensures
            (*final(self), decision) == old(self).after_failure(error),
    {
        self.state = FrameState::Idle;
        match error {
            AcquireError::Timeout => Decision::Skip {
                reason: SkipReason::Timeout,
                reconfigure: false,
            },
            AcquireError::Outdated => Decision::Skip {
                reason: SkipReason::Outdated,
                reconfigure: true,
            },
            AcquireError::Lost => {
                if self.surface_lost {
                    Decision::Fail(FatalError::SurfaceLost)
                } else {
                    self.surface_lost = true;
                    Decision::Skip { reason: SkipReason::SurfaceLost, reconfigure: true }
                }
            },
            AcquireError::OutOfMemory => Decision::Fail(FatalError::OutOfMemory),
            AcquireError::Other => Decision::Skip {
                reason: SkipReason::Unspecified,
                reconfigure: false,
            },
        }
    }

    /// Takes in `event`, moves to the next state and says what the backend
    /// has to do.
    pub fn advance(&mut self, event: FrameEvent, presentable: bool) -> (decision: Decision)
        ensures
            (*final(self), decision) == old(self).next(event, presentable),
    {
        match (self.state, event) {
            (_, FrameEvent::DeviceLost) => {
                self.state = FrameState::Idle;
                Decision::Fail(FatalError::DeviceLost)
            },
            (FrameState::Idle, FrameEvent::RedrawRequested) => {
                if presentable {
                    self.state = FrameState::Acquiring;
                    Decision::Acquire
                } else {
                    Decision::Skip { reason: SkipReason::NotPresentable, reconfigure: false }
                }
            },
            (FrameState::Acquiring, FrameEvent::ImageAcquired) => {
                self.state = FrameState::Recording;
                self.surface_lost = false;
                Decision::Record
            },
            (FrameState::Acquiring, FrameEvent::AcquireFailed(error)) => self.fail_to_acquire(
                error,
            ),
            (FrameState::Recording, FrameEvent::PassRecorded) => {
                self.state = FrameState::Submitted;
                Decision::Submit
            },
            (FrameState::Submitted, FrameEvent::WorkSubmitted) => {
                self.state = FrameState::Presented;
                Decision::Present
            },
            (FrameState::Presented, FrameEvent::ImagePresented) => {
                self.state = FrameState::Idle;
                Decision::Finish
            },
            _ => Decision::Ignore,
        }
    }

    /// A frame on a surface with area whose image arrives runs through all
    /// of acquire, record, submit and present, in this order, and ends where
    /// it began: between two frames.
    pub proof fn frame_runs_to_presentation(start: FrameController)
        requires
            start.state == FrameState::Idle,
        ensures
            ({
                let (acquiring, first) = start.next(FrameEvent::RedrawRequested, true);
                let (recording, second) = acquiring.next(FrameEvent::ImageAcquired, true);
                let (submitted, third) = recording.next(FrameEvent::PassRecorded, true);
                let (presented, fourth) = submitted.next(FrameEvent::WorkSubmitted, true);
                let (end, fifth) = presented.next(FrameEvent::ImagePresented, true);
                &&& first == Decision::Acquire && acquiring.state == FrameState::Acquiring
                &&& second == Decision::Record && recording.state == FrameState::Recording
                &&& third == Decision::Submit && submitted.state == FrameState::Submitted
                &&& fourth == Decision::Present && presented.state == FrameState::Presented
                &&& fifth == Decision::Finish && end == FrameController::idle()
            }),
    {
    }

    /// While the surface has no area a redraw acquires nothing: the frame
    /// is skipped at once and the controller stays between two frames.
    pub proof fn surface_without_area_acquires_nothing(start: FrameController)
        requires
            start.state == FrameState::Idle,
        ensures
            start.next(FrameEvent::RedrawRequested, false) == (
                start,
                Decision::Skip { reason: SkipReason::NotPresentable, reconfigure: false },
            ),
    {
    }

    /// Whatever happens, a pass is recorded only for an image that was
    /// acquired, and every frame that does not go on ends between two frames.
    pub proof fn decisions_follow_the_lifecycle(
        start: FrameController,
        event: FrameEvent,
        presentable: bool,
    )
        ensures
            ({
                let (end, decision) = start.next(event, presentable);
                &&& decision == Decision::Acquire ==> start.state == FrameState::Idle && presentable
                &&& decision == Decision::Record ==> start.state == FrameState::Acquiring && event
                    == FrameEvent::ImageAcquired
                &&& decision == Decision::Submit ==> start.state == FrameState::Recording
                &&& decision == Decision::Present ==> start.state == FrameState::Submitted
                &&& decision == Decision::Finish ==> start.state == FrameState::Presented
                &&& decision.drops_frame() ==> end.state == FrameState::Idle
                &&& decision == Decision::Ignore ==> end == start
            }),
    {
    }

    /// A lost surface is given one chance: the first loss in a row skips
    /// the frame and asks for the surface to be configured again, the second
    /// is fatal. Any image that arrives in between starts the count anew.
    pub proof fn surface_lost_twice_is_fatal(start: FrameController, presentable: bool)
        requires
            start.state == FrameState::Acquiring,
        ensures
            ({
                let lost = FrameEvent::AcquireFailed(AcquireError::Lost);
                let (after, decision) = start.next(lost, presentable);
                &&& !start.surface_lost ==> decision == (Decision::Skip {
                    reason: SkipReason::SurfaceLost,
                    reconfigure: true,
                }) && after.surface_lost
                &&& start.surface_lost ==> decision == Decision::Fail(FatalError::SurfaceLost)
                &&& !start.next(FrameEvent::ImageAcquired, presentable).0.surface_lost
            }),
    {
    }
}

} // verus!
