//! The pipeline's side of the handoff: one batch of mint events, rendered and
//! stored one event at a time, in stream order.
//!
//! The driver decides; the code that owns the channels and the stores acts
//! and reports back what came of each action.

use crate::mint_filter::MintEvent;
use vstd::prelude::*;

verus! {

/// The versions that a finished batch covered.
#[derive(Clone, Copy, Debug, PartialEq, Eq, Structural)]
pub struct ProcessingResult {
    pub start_version: u64,
    pub end_version: u64,
}

/// Why a batch was given up.
#[derive(Clone, Copy, Debug, PartialEq, Eq, Structural)]
pub enum PipelineError {
    /// A channel to the renderer is closed.
    RendererGone,
    /// The blob store did not take an image.
    BlobWriteFailed,
    /// The driver was told of something it had not asked for.
    OutOfTurn,
}

/// What the driver is waiting for.
#[derive(Clone, Copy, Debug, PartialEq, Eq, Structural)]
pub enum Phase {
    /// For the request of the current event to be sent.
    Requesting,
    /// For the image of the current event.
    AwaitingImage,
    /// For the image of the current event to be stored.
    Writing,
    /// For nothing: every event is stored.
    Finished,
    /// For nothing: the batch was given up.
    Failed(PipelineError),
}

/// What came of the driver's last action.
#[derive(Debug)]
pub enum Outcome {
    /// The request was put in the request slot.
    Sent,
    /// The image arrived from the image slot.
    Image(Vec<u8>),
    /// The image was stored.
    Written,
    /// A channel to the renderer was found closed.
    ChannelClosed,
    /// The blob store reported an error.
    WriteFailed,
}

/// What the driver wants done next.
#[derive(Debug)]
pub enum Action {
    /// Send this token address to the renderer; wait while the slot is full.
    Request(String),
    /// Wait for the renderer's image.
    AwaitImage,
    /// Store this image under this token address.
    WriteImage { image: Vec<u8>, token_address: String },
    /// Report the batch as done. Its end version is the checkpoint.
    Done(ProcessingResult),
    /// Stop the pipeline.
    Halt(PipelineError),
}

/// One batch on its way through the pipeline.
#[derive(Debug)]
pub struct BatchDriver {
    pub events: Vec<MintEvent>,
    /// How many events are rendered and stored.
    pub completed: usize,
    pub phase: Phase,
    pub start_version: u64,
    pub end_version: u64,
}

/// The phase in which the driver turns to the event after `completed`
/// finished ones out of `count`.
pub open spec fn phase_at(completed: int, count: int) -> Phase {
    if completed < count {
        Phase::Requesting
    } else {
        Phase::Finished
    }
}

impl BatchDriver {
    /// A driver that is in step with its batch: it has not completed more
    /// events than there are, and unless it is finished or has failed there
    /// is a current event.
    pub open spec fn wf(&self) -> bool {
        &&& self.completed <= self.events@.len()
        &&& self.phase is Finished ==> self.completed == self.events@.len()
        &&& (self.phase is Requesting || self.phase is AwaitingImage || self.phase is Writing)
            ==> self.completed < self.events@.len()
    }

    /// Whether the driver is in step with its batch.
    pub fn is_valid(&self) -> (valid: bool)
        ensures
            valid == self.wf(),
    {
        let count = self.events.len();
        match self.phase {
            Phase::Finished => self.completed == count,
            Phase::Failed(_) => self.completed <= count,
            _ => self.completed < count,
        }
    }

    /// The action that the driver's phase calls for.
    pub open spec fn wanted(&self, action: Action) -> bool {
        match self.phase {
            Phase::Requesting => action == Action::Request(
                self.events@[self.completed as int].token_address,
            ),
            Phase::AwaitingImage => action == Action::AwaitImage,
            Phase::Writing => action is WriteImage && action->token_address
                == self.events@[self.completed as int].token_address,
            Phase::Finished => action == Action::Done(
                ProcessingResult {
                    start_version: self.start_version,
                    end_version: self.end_version,
                },
            ),
            Phase::Failed(e) => action == Action::Halt(e),
        }
    }

    /// The driver after `outcome`, as far as `outcome` answers what the
    /// driver was waiting for; anything else is out of turn. A closed channel
    /// or a failed write gives up the batch, and a batch once finished or
    /// given up stays so.
    pub open spec fn advanced(&self, outcome: Outcome) -> (Phase, int) {
        match (self.phase, outcome) {
            (Phase::Failed(e), _) => (Phase::Failed(e), self.completed as int),
            (Phase::Finished, _) => (Phase::Finished, self.completed as int),
            (Phase::Requesting, Outcome::Sent) => (Phase::AwaitingImage, self.completed as int),
            (Phase::Requesting, Outcome::ChannelClosed) => (
                Phase::Failed(PipelineError::RendererGone),
                self.completed as int,
            ),
            (Phase::AwaitingImage, Outcome::Image(_)) => (Phase::Writing, self.completed as int),
            (Phase::AwaitingImage, Outcome::ChannelClosed) => (
                Phase::Failed(PipelineError::RendererGone),
                self.completed as int,
            ),
            (Phase::Writing, Outcome::Written) => (
                phase_at(self.completed + 1, self.events@.len() as int),
                self.completed + 1,
            ),
            (Phase::Writing, Outcome::WriteFailed) => (
                Phase::Failed(PipelineError::BlobWriteFailed),
                self.completed as int,
            ),
            _ => (Phase::Failed(PipelineError::OutOfTurn), self.completed as int),
        }
    }

    /// Takes up a batch: its mint events in stream order and the versions it
    /// covers. The first action is the request for the first event, or the
    /// report that the batch is done if it holds no mint.
    pub fn new(events: Vec<MintEvent>, start_version: u64, end_version: u64) -> (started: (
        Self,
        Action,
    ))
        ensures
            started.0.wf(),
            started.0.events == events,
            started.0.completed == 0,
            started.0.start_version == start_version,
            started.0.end_version == end_version,
            started.0.phase == phase_at(0, events@.len() as int),
            started.0.wanted(started.1),
    {
        let phase = if events.len() > 0 {
            Phase::Requesting
        } else {
            Phase::Finished
        };
        let driver = BatchDriver { events, completed: 0, phase, start_version, end_version };
        let action = driver.action(None);
        (driver, action)
    }

    fn action(&self, image: Option<Vec<u8>>) -> (action: Action)
        requires
            self.wf(),
            self.phase is Writing ==> image is Some,
        ensures
            self.wanted(action),
            self.phase is Writing ==> action->image == image->0,
    {
        match self.phase {
            Phase::Requesting => Action::Request(
                self.events[self.completed].token_address.clone(),
            ),
            Phase::AwaitingImage => Action::AwaitImage,
            Phase::Writing => match image {
                Some(image) => Action::WriteImage {
                    image,
                    token_address: self.events[self.completed].token_address.clone(),
                },
                None => Action::Halt(PipelineError::OutOfTurn),
            },
            Phase::Finished => Action::Done(
                ProcessingResult {
                    start_version: self.start_version,
                    end_version: self.end_version,
                },
            ),
            Phase::Failed(e) => Action::Halt(e),
        }
    }

    /// Takes note of what came of the last action and says what to do next.
    ///
    /// The events are requested one at a time and in order: the request for
    /// an event is wanted only when every earlier event is stored. An image
    /// that arrives is passed on unchanged, to be stored under the address
    /// of the event it was requested for.
    pub fn step(&mut self, outcome: Outcome) -> (action: Action)
        requires
            old(self).wf(),
        ensures
            final(self).wf(),
            final(self).events == old(self).events,
            final(self).start_version == old(self).start_version,
            final(self).end_version == old(self).end_version,
            (final(self).phase, final(self).completed as int) == old(self).advanced(outcome),
            final(self).wanted(action),
            final(self).phase is Writing ==> action->image == outcome->Image_0,
    {
        let mut image: Option<Vec<u8>> = None;
        let count = self.events.len();
        match self.phase {
            Phase::Failed(_) => {},
            Phase::Finished => {},
            Phase::Requesting => match outcome {
                Outcome::Sent => {
                    self.phase = Phase::AwaitingImage;
                },
                Outcome::ChannelClosed => {
                    self.phase = Phase::Failed(PipelineError::RendererGone);
                },
                _ => {
                    self.phase = Phase::Failed(PipelineError::OutOfTurn);
                },
            },
            Phase::AwaitingImage => match outcome {
                Outcome::Image(bytes) => {
                    image = Some(bytes);
                    self.phase = Phase::Writing;
                },
                Outcome::ChannelClosed => {
                    self.phase = Phase::Failed(PipelineError::RendererGone);
                },
                _ => {
                    self.phase = Phase::Failed(PipelineError::OutOfTurn);
                },
            },
            Phase::Writing => match outcome {
                Outcome::Written => {
                    self.completed = self.completed + 1;
                    self.phase = if self.completed < count {
                        Phase::Requesting
                    } else {
                        Phase::Finished
                    };
                },
                Outcome::WriteFailed => {
                    self.phase = Phase::Failed(PipelineError::BlobWriteFailed);
                },
                _ => {
                    self.phase = Phase::Failed(PipelineError::OutOfTurn);
                },
            },
        }
        self.action(image)
    }
}

/// The batch is reported done only when every mint event in it is stored,
/// and a request is wanted only for the first event that is not.
pub proof fn lemma_done_means_all_stored(driver: BatchDriver, action: Action)
    requires
        driver.wf(),
        driver.wanted(action),
    ensures
        action is Done ==> driver.completed == driver.events@.len(),
        action is Done ==> action->Done_0.end_version == driver.end_version,
        action is Request ==> driver.completed < driver.events@.len() && action->Request_0
            == driver.events@[driver.completed as int].token_address,
        action is Request ==> !(driver.phase is AwaitingImage) && !(driver.phase is Writing),
{
}

/// One request at a time: after the first, a request is wanted only when
/// the image of the event before it has been stored. While a request is
/// out, or its image is being stored, no outcome makes the driver want
/// another.
pub proof fn lemma_request_follows_stored_image(
    before: BatchDriver,
    outcome: Outcome,
    after: BatchDriver,
    action: Action,
)
    requires
        before.wf(),
        after.events == before.events,
        (after.phase, after.completed as int) == before.advanced(outcome),
        after.wanted(action),
        action is Request,
    ensures
        before.phase is Writing,
        outcome is Written,
        after.completed == before.completed + 1,
        action->Request_0 == before.events@[before.completed + 1].token_address,
{
}

/// No outcome takes the driver back: the number of stored events never
/// falls, and it rises by one exactly when a write is confirmed.
pub proof fn lemma_progress_is_monotonic(driver: BatchDriver, outcome: Outcome)
    requires
        driver.wf(),
    ensures
        driver.advanced(outcome).1 >= driver.completed,
        driver.advanced(outcome).1 > driver.completed <==> driver.phase is Writing
            && outcome is Written,
        driver.phase is Failed ==> driver.advanced(outcome).0 == driver.phase,
{
}

} // verus!
