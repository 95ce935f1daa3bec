//! `TrackingRider`: a stream of responses to the caller, one every five
//! seconds, five at most, that ends early when the caller stops listening.

use crate::delivery::MyDelivery;
use crate::effects::{Effect, EffectView, Reply, ReplyView, Step, StepView};
use crate::messages::TrackingRiderResponse;
use crate::world::{drive, World};
use vstd::prelude::*;

verus! {

/// How many responses a stream holds at most.
pub const TRACKING_RESPONSES: u32 = 5;

/// The seconds between two responses.
pub const TRACKING_INTERVAL_SECONDS: u64 = 5;

/// How many responses may wait for the caller to take them.
pub const TRACKING_QUEUE_DEPTH: usize = 4;

/// A stream in progress, with the number of responses sent so far.
#[derive(Clone, Copy, Debug, PartialEq, Eq, Structural)]
pub enum TrackingFlow {
    /// Waiting for the next response to fall due.
    Waiting { sent: u32 },
    /// Handing a response to the stream.
    Sending { sent: u32 },
}

impl View for TrackingFlow {
    type V = TrackingFlow;

    open spec fn view(&self) -> TrackingFlow {
        *self
    }
}

/// The response that is sent while riders are not located yet.
pub open spec fn blank_response() -> TrackingRiderResponse {
    TrackingRiderResponse { location: None }
}

/// The first step of a stream: to wait for the first response to fall due.
pub open spec fn tracking_start() -> StepView<TrackingFlow, ()> {
    StepView::Perform(
        TrackingFlow::Waiting { sent: 0 },
        EffectView::Sleep { seconds: TRACKING_INTERVAL_SECONDS },
    )
}

/// The step of a stream that follows a reply: after the wait a response is
/// sent; after a response that the stream took, the next wait begins unless
/// that was the last response; and a response that the stream did not take
/// ends the stream.
pub open spec fn tracking_resume(flow: TrackingFlow, reply: ReplyView) -> StepView<TrackingFlow, ()> {
    match flow {
        TrackingFlow::Waiting { sent } => StepView::Perform(
            TrackingFlow::Sending { sent },
            EffectView::SendTracking { response: blank_response() },
        ),
        TrackingFlow::Sending { sent } => if reply is Done && sent + 1 < TRACKING_RESPONSES {
            StepView::Perform(
                TrackingFlow::Waiting { sent: (sent + 1) as u32 },
                EffectView::Sleep { seconds: TRACKING_INTERVAL_SECONDS },
            )
        } else {
            StepView::Finish(())
        },
    }
}

impl MyDelivery {
    /// Opens a stream.
    pub fn tracking_rider() -> (step: Step<TrackingFlow, ()>)
        ensures
            step.view_as(|u: ()| u) == tracking_start(),
    {
        Step::Perform(
            TrackingFlow::Waiting { sent: 0 },
            Effect::Sleep { seconds: TRACKING_INTERVAL_SECONDS },
        )
    }
}

impl TrackingFlow {
    /// Goes on with a stream after a reply.
    pub fn resume(self, reply: Reply) -> (step: Step<TrackingFlow, ()>)
        ensures
            step.view_as(|u: ()| u) == tracking_resume(self@, reply@),
    {
        match self {
            TrackingFlow::Waiting { sent } => Step::Perform(
                TrackingFlow::Sending { sent },
                Effect::SendTracking { response: TrackingRiderResponse { location: None } },
            ),
            TrackingFlow::Sending { sent } => {
                let taken = match reply {
                    Reply::Done => true,
                    _ => false,
                };
                if taken && sent < TRACKING_RESPONSES - 1 {
                    Step::Perform(
                        TrackingFlow::Waiting { sent: sent + 1 },
                        Effect::Sleep { seconds: TRACKING_INTERVAL_SECONDS },
                    )
                } else {
                    Step::Finish(())
                }
            },
        }
    }
}

/// A stream run to its end against the model of the world, in which the
/// caller listens to the end.
pub open spec fn tracking_run(world: World) -> (World, Option<()>) {
    drive(world, tracking_start(), |f: TrackingFlow, r: ReplyView| tracking_resume(f, r), 10)
}

/// A caller who listens to the end gets five responses, one after every five
/// seconds, and then the stream ends.
pub proof fn law_tracking_sends_five(world: World)
    ensures
        tracking_run(world) == (
            World {
                tracking: world.tracking + Seq::new(
                    TRACKING_RESPONSES as nat,
                    |i: int| blank_response(),
                ),
                waited: world.waited + TRACKING_RESPONSES * TRACKING_INTERVAL_SECONDS,
                ..world
            },
            Some(()),
        ),
{
    reveal_with_fuel(drive, 11);
    let after = tracking_run(world).0;
    assert(after.tracking =~= world.tracking + Seq::new(
        TRACKING_RESPONSES as nat,
        |i: int| blank_response(),
    ));
}

} // verus!
