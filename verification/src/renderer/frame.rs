//! The course of one frame, from the call that starts it to the image on
//! the screen.
//!
//! The scheduler decides and the caller acts: each answer of the
//! scheduler names the next thing to ask of the graphics device, and the
//! outcome comes back as the next event.

use vstd::prelude::*;
use crate::renderer::renderer_error::{AcquireError, FlushError, RenderError};

verus! {

/// Stands for the work of one submitted frame that the device has not
/// been seen to finish.
#[derive(Clone, Copy, Debug, PartialEq, Eq, Structural)]
pub struct FrameToken {
    pub serial: u64,
}

/// Where a frame stands.
#[derive(Clone, Copy, Debug, PartialEq, Eq, Structural)]
pub enum FrameState {
    /// No frame is under way.
    Idle,
    /// An image of the swapchain was asked for.
    Acquiring,
    /// The commands for the acquired image are to be recorded.
    Recording,
    /// The commands were handed over for execution and presentation.
    Submitted,
    /// The frame is on its way to the screen.
    Presented,
    /// The frame was given up.
    Failed,
}

/// What happened outside since the scheduler last answered.
#[derive(Clone, Copy, Debug, PartialEq, Eq)]
pub enum FrameEvent {
    /// A frame is asked for. `previous_finished` says whether the device
    /// was found to be done with the frame before.
    Begin { previous_finished: bool },
    /// The swapchain was recreated, or could not be.
    SwapchainRecreated(Result<(), RenderError>),
    /// The swapchain gave the image at this position, or none.
    ImageAcquired(Result<usize, AcquireError>),
    /// The commands of the frame were recorded, or could not be.
    Recorded(Result<(), RenderError>),
    /// The commands were executed and the image queued for presentation
    /// behind a signal of completion, or one of these failed.
    Flushed(Result<(), RenderError>),
}

/// What the caller is to do next.
#[derive(Clone, Copy, Debug, PartialEq, Eq)]
pub enum FrameAction {
    /// Recreate the swapchain for the window as it is now.
    RecreateSwapchain,
    /// Ask the swapchain for its next image.
    AcquireImage,
    /// Have the commands for this image recorded.
    Record { image_num: usize },
    /// Execute the commands and present the image, once the image is
    /// available and the frame behind `wait_for` is done.
    Submit { image_num: usize, wait_for: Option<FrameToken> },
    /// The frame is over; an error means that it was dropped.
    Finished(Result<(), RenderError>),
    /// The event does not fit the state. Nothing has changed.
    Unexpected,
}

/// The decisions of the renderer from frame to frame.
#[derive(Clone, Copy, Debug, PartialEq, Eq, Structural)]
pub struct FrameScheduler {
    pub state: FrameState,
    /// Whether the swapchain has to be recreated before the next image is
    /// acquired.
    pub recreate_swapchain: bool,
    /// The frame submitted last, while the device may still work on it.
    pub previous_frame: Option<FrameToken>,
    /// The image of the frame under way.
    pub image_num: usize,
    /// Serial of the next token.
    pub next_serial: u64,
}

/// The serial after `serial`. After the last one comes the first.
pub open spec fn spec_next_serial(serial: u64) -> u64 {
    if serial == u64::MAX {
        0
    } else {
        (serial + 1) as u64
    }
}

/// Whether a new frame may begin in this state.
pub open spec fn spec_is_resting(state: FrameState) -> bool {
    state is Idle || state is Presented || state is Failed
}

/// Whether the error says that the swapchain no longer fits the surface.
pub open spec fn spec_is_out_of_date(error: RenderError) -> bool {
    error == RenderError::AcquireError(AcquireError::OutOfDate) || error == RenderError::FlushError(
        FlushError::OutOfDate,
    )
}

impl FrameScheduler {
    /// While a submission is under way no token is kept, and a token that
    /// is kept was the last one made.
    pub open spec fn wf(&self) -> bool {
        &&& self.state is Submitted ==> self.previous_frame is None
        &&& self.previous_frame matches Some(token) ==> spec_next_serial(token.serial)
            == self.next_serial
    }

    /// Number of submitted frames that the device may still work on.
    pub open spec fn spec_frames_in_flight(&self) -> nat {
        if self.previous_frame is Some {
            1
        } else {
            0
        }
    }

    /// The state after `event` and the answer to it.
    pub open spec fn spec_step(self, event: FrameEvent) -> (FrameScheduler, FrameAction) {
        match event {
            FrameEvent::Begin { previous_finished } => if !spec_is_resting(self.state) {
                (self, FrameAction::Unexpected)
            } else {
                let previous_frame = if previous_finished {
                    None
                } else {
                    self.previous_frame
                };
                if self.recreate_swapchain {
                    (
                        FrameScheduler { state: FrameState::Idle, previous_frame, ..self },
                        FrameAction::RecreateSwapchain,
                    )
                } else {
                    (
                        FrameScheduler { state: FrameState::Acquiring, previous_frame, ..self },
                        FrameAction::AcquireImage,
                    )
                }
            },
            FrameEvent::SwapchainRecreated(outcome) => if !(self.state is Idle
                && self.recreate_swapchain) {
                (self, FrameAction::Unexpected)
            } else {
                match outcome {
                    Ok(_) => (
                        FrameScheduler {
                            state: FrameState::Acquiring,
                            recreate_swapchain: false,
                            ..self
                        },
                        FrameAction::AcquireImage,
                    ),
                    Err(e) => (
                        FrameScheduler { state: FrameState::Failed, ..self },
                        FrameAction::Finished(Err(e)),
                    ),
                }
            },
            FrameEvent::ImageAcquired(outcome) => if !(self.state is Acquiring) {
                (self, FrameAction::Unexpected)
            } else {
                match outcome {
                    Ok(image_num) => (
                        FrameScheduler { state: FrameState::Recording, image_num, ..self },
                        FrameAction::Record { image_num },
                    ),
                    Err(e) => (
                        FrameScheduler {
                            state: FrameState::Failed,
                            recreate_swapchain: self.recreate_swapchain || e
                                == AcquireError::OutOfDate,
                            ..self
                        },
                        FrameAction::Finished(Err(RenderError::AcquireError(e))),
                    ),
                }
            },
            FrameEvent::Recorded(outcome) => if !(self.state is Recording) {
                (self, FrameAction::Unexpected)
            } else {
                match outcome {
                    Ok(_) => (
                        FrameScheduler {
                            state: FrameState::Submitted,
                            previous_frame: None,
                            ..self
                        },
                        FrameAction::Submit {
                            image_num: self.image_num,
                            wait_for: self.previous_frame,
                        },
                    ),
                    Err(e) => (
                        FrameScheduler { state: FrameState::Failed, ..self },
                        FrameAction::Finished(Err(e)),
                    ),
                }
            },
            FrameEvent::Flushed(outcome) => if !(self.state is Submitted) {
                (self, FrameAction::Unexpected)
            } else {
                match outcome {
                    Ok(_) => (
                        FrameScheduler {
                            state: FrameState::Presented,
                            previous_frame: Some(FrameToken { serial: self.next_serial }),
                            next_serial: spec_next_serial(self.next_serial),
                            ..self
                        },
                        FrameAction::Finished(Ok(())),
                    ),
                    Err(e) => (
                        FrameScheduler {
                            state: FrameState::Failed,
                            recreate_swapchain: self.recreate_swapchain || e
                                == RenderError::FlushError(FlushError::OutOfDate),
                            ..self
                        },
                        FrameAction::Finished(Err(e)),
                    ),
                }
            },
        }
    }

    /// The state after a row of events.
    pub open spec fn spec_run(self, events: Seq<FrameEvent>) -> FrameScheduler
        decreases events.len(),
    {
        if events.len() == 0 {
            self
        } else {
            self.spec_run(events.drop_last()).spec_step(events.last()).0
        }
    }

    /// A scheduler between frames, with nothing in flight and a swapchain
    /// that is up to date.
    pub fn new() -> (scheduler: FrameScheduler)
        ensures
            scheduler.wf(),
            scheduler == (FrameScheduler {
                state: FrameState::Idle,
                recreate_swapchain: false,
                previous_frame: None,
                image_num: 0,
                next_serial: 0,
            }),
    {
        FrameScheduler {
            state: FrameState::Idle,
            recreate_swapchain: false,
            previous_frame: None,
            image_num: 0,
            next_serial: 0,
        }
    }

    /// Takes note of what happened and says what to do next.
    pub fn step(&mut self, event: FrameEvent) -> (action: FrameAction)
        ensures
            (*final(self), action) == old(self).spec_step(event),
            old(self).wf() ==> final(self).wf(),
    {
        match event {
            FrameEvent::Begin { previous_finished } => {
                match self.state {
                    FrameState::Idle | FrameState::Presented | FrameState::Failed => {},
                    _ => {
                        return FrameAction::Unexpected;
                    },
                }
                if previous_finished {
                    self.previous_frame = None;
                }
                if self.recreate_swapchain {
                    self.state = FrameState::Idle;
                    FrameAction::RecreateSwapchain
                } else {
                    self.state = FrameState::Acquiring;
                    FrameAction::AcquireImage
                }
            },
            FrameEvent::SwapchainRecreated(outcome) => {
                match self.state {
                    FrameState::Idle => {},
                    _ => {
                        return FrameAction::Unexpected;
                    },
                }
                if !self.recreate_swapchain {
                    return FrameAction::Unexpected;
                }
                match outcome {
                    Ok(_) => {
                        self.state = FrameState::Acquiring;
                        self.recreate_swapchain = false;
                        FrameAction::AcquireImage
                    },
                    Err(e) => {
                        self.state = FrameState::Failed;
                        FrameAction::Finished(Err(e))
                    },
                }
            },
            FrameEvent::ImageAcquired(outcome) => {
                match self.state {
                    FrameState::Acquiring => {},
                    _ => {
                        return FrameAction::Unexpected;
                    },
                }
                match outcome {
                    Ok(image_num) => {
                        self.state = FrameState::Recording;
                        self.image_num = image_num;
                        FrameAction::Record { image_num }
                    },
                    Err(e) => {
                        self.state = FrameState::Failed;
                        match e {
                            AcquireError::OutOfDate => {
                                self.recreate_swapchain = true;
                            },
                            _ => {},
                        }
                        FrameAction::Finished(Err(RenderError::AcquireError(e)))
                    },
                }
            },
            FrameEvent::Recorded(outcome) => {
                match self.state {
                    FrameState::Recording => {},
                    _ => {
                        return FrameAction::Unexpected;
                    },
                }
                match outcome {
                    Ok(_) => {
                        let wait_for = self.previous_frame;
                        self.previous_frame = None;
                        self.state = FrameState::Submitted;
                        FrameAction::Submit { image_num: self.image_num, wait_for }
                    },
                    Err(e) => {
                        self.state = FrameState::Failed;
                        FrameAction::Finished(Err(e))
                    },
                }
            },
            FrameEvent::Flushed(outcome) => {
                match self.state {
                    FrameState::Submitted => {},
                    _ => {
                        return FrameAction::Unexpected;
                    },
                }
                match outcome {
                    Ok(_) => {
                        self.previous_frame = Some(FrameToken { serial: self.next_serial });
                        self.next_serial = if self.next_serial == u64::MAX {
                            0
                        } else {
                            self.next_serial + 1
                        };
                        self.state = FrameState::Presented;
                        FrameAction::Finished(Ok(()))
                    },
                    Err(e) => {
                        self.state = FrameState::Failed;
                        match e {
                            RenderError::FlushError(FlushError::OutOfDate) => {
                                self.recreate_swapchain = true;
                            },
                            _ => {},
                        }
                        FrameAction::Finished(Err(e))
                    },
                }
            },
        }
    }

    /// Marks the swapchain as stale: it is recreated when the next frame
    /// begins.
    pub fn force_recreate_swapchain(&mut self)
        ensures
            *final(self) == (FrameScheduler { recreate_swapchain: true, ..*old(self) }),
    {
        self.recreate_swapchain = true;
    }
}

/// Whatever happens, a sound scheduler stays sound.
pub proof fn lemma_step_keeps_wf(scheduler: FrameScheduler, event: FrameEvent)
    requires
        scheduler.wf(),
    ensures
        scheduler.spec_step(event).0.wf(),
{
}

/// At most one submitted frame is in flight, whatever row of events the
/// scheduler has seen.
pub proof fn lemma_single_frame_in_flight(scheduler: FrameScheduler, events: Seq<FrameEvent>)
    requires
        scheduler.wf(),
    ensures
        scheduler.spec_run(events).wf(),
        scheduler.spec_run(events).spec_frames_in_flight() <= 1,
    decreases events.len(),
{
    if events.len() > 0 {
        lemma_single_frame_in_flight(scheduler, events.drop_last());
        lemma_step_keeps_wf(scheduler.spec_run(events.drop_last()), events.last());
    }
}

/// A submission waits for the frame that was in flight and takes its
/// place, and a new token is kept only where none is kept already: when
/// a submission was flushed.
pub proof fn lemma_token_changes_hands(scheduler: FrameScheduler, event: FrameEvent)
    requires
        scheduler.wf(),
    ensures
        ({
            let (after, action) = scheduler.spec_step(event);
            &&& action matches FrameAction::Submit { wait_for, .. } ==> wait_for
                == scheduler.previous_frame && after.previous_frame is None
            &&& after.previous_frame is Some && after.previous_frame != scheduler.previous_frame
                ==> scheduler.previous_frame is None && event matches FrameEvent::Flushed(Ok(_))
        }),
{
}

/// With a swapchain that is up to date and a device that does all that
/// is asked of it, a frame runs its course: an image is acquired, the
/// commands are recorded and submitted behind the frame before, and the
/// frame ends well as the one in flight.
pub proof fn lemma_frame_runs_its_course(
    scheduler: FrameScheduler,
    previous_finished: bool,
    image_num: usize,
)
    requires
        scheduler.wf(),
        spec_is_resting(scheduler.state),
        !scheduler.recreate_swapchain,
    ensures
        ({
            let (begun, first) = scheduler.spec_step(FrameEvent::Begin { previous_finished });
            let (acquired, second) = begun.spec_step(FrameEvent::ImageAcquired(Ok(image_num)));
            let (recorded, third) = acquired.spec_step(FrameEvent::Recorded(Ok(())));
            let (presented, fourth) = recorded.spec_step(FrameEvent::Flushed(Ok(())));
            &&& first == FrameAction::AcquireImage
            &&& begun.state is Acquiring
            &&& second == FrameAction::Record { image_num }
            &&& acquired.state is Recording
            &&& third == FrameAction::Submit {
                image_num,
                wait_for: if previous_finished {
                    None
                } else {
                    scheduler.previous_frame
                },
            }
            &&& recorded.state is Submitted
            &&& fourth == FrameAction::Finished(Ok(()))
            &&& presented.state is Presented
            &&& presented.previous_frame == Some(FrameToken { serial: scheduler.next_serial })
            &&& !presented.recreate_swapchain
        }),
{
}

/// An image that cannot be acquired because the swapchain is out of date
/// costs the frame and nothing else: nothing is submitted, the swapchain
/// is marked as stale, and the next frame begins with its recreation and
/// then runs its course.
pub proof fn lemma_out_of_date_recovery(scheduler: FrameScheduler, image_num: usize)
    requires
        scheduler.wf(),
        scheduler.state is Acquiring,
    ensures
        ({
            let (dropped, answer) = scheduler.spec_step(
                FrameEvent::ImageAcquired(Err(AcquireError::OutOfDate)),
            );
            let (begun, first) = dropped.spec_step(FrameEvent::Begin { previous_finished: false });
            let (recreated, second) = begun.spec_step(FrameEvent::SwapchainRecreated(Ok(())));
            let (acquired, third) = recreated.spec_step(FrameEvent::ImageAcquired(Ok(image_num)));
            let (recorded, fourth) = acquired.spec_step(FrameEvent::Recorded(Ok(())));
            let (presented, fifth) = recorded.spec_step(FrameEvent::Flushed(Ok(())));
            &&& answer == FrameAction::Finished(
                Err(RenderError::AcquireError(AcquireError::OutOfDate)),
            )
            &&& dropped.state is Failed
            &&& dropped.recreate_swapchain
            &&& dropped.previous_frame == scheduler.previous_frame
            &&& dropped.next_serial == scheduler.next_serial
            &&& first == FrameAction::RecreateSwapchain
            &&& second == FrameAction::AcquireImage
            &&& !recreated.recreate_swapchain
            &&& third == FrameAction::Record { image_num }
            &&& fourth == FrameAction::Submit { image_num, wait_for: scheduler.previous_frame }
            &&& fifth == FrameAction::Finished(Ok(()))
            &&& presented.state is Presented
            &&& !presented.recreate_swapchain
        }),
{
}

} // verus!
