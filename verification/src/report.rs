//! `ReportDeliveryStatus`: a rider reports that an order has moved on.
//!
//! The handler checks the request, reads the status of the order from the
//! status cache, lets the report through only if it moves the order forwards,
//! writes the new status and publishes `rider.assigned.event`.

use crate::bus::RIDER_ASSIGNED_KEY;
use crate::delivery::{prepared_for, MyDelivery, MAX_PICKUP_CODE, MIN_PICKUP_CODE};
use crate::effects::{Effect, EffectView, Reply, ReplyView, Step, StepView};
use crate::handlers::{law_order_placed_effects, order_placed_run};
use crate::messages::{
    BusMessage, BusMessageView, OrderPlacedEventView, ReportDeliveryStatusRequest,
    ReportDeliveryStatusRequestView, RiderAssignedEvent, Timestamp,
};
use crate::outside::current_time;
use crate::rpc::{answer_view, Status, StatusView};
use crate::status::{law_name_round_trip, DeliveryStatus};
use crate::world::{drive, Published, World};
use vstd::prelude::*;
use vstd::string::*;

verus! {

/// How far a report has come.
#[derive(Clone, Copy, Debug, PartialEq, Eq, Structural)]
pub enum ReportPhase {
    /// The status of the order has been asked for.
    AwaitStatus,
    /// The new status is being written.
    AwaitWrite,
    /// The event is being published.
    AwaitPublish,
}

/// A report in progress.
#[derive(Clone, Debug, PartialEq, Eq)]
pub struct ReportFlow {
    pub phase: ReportPhase,
    pub request: ReportDeliveryStatusRequest,
}

/// A `ReportFlow` as a mathematical value.
pub struct ReportFlowView {
    pub phase: ReportPhase,
    pub request: ReportDeliveryStatusRequestView,
}

impl View for ReportFlow {
    type V = ReportFlowView;

    open spec fn view(&self) -> ReportFlowView {
        ReportFlowView { phase: self.phase, request: self.request@ }
    }
}

/// What a report is answered with.
pub type ReportAnswer = Result<(), Status>;

/// A `ReportAnswer` as a mathematical value.
pub type ReportAnswerView = Result<(), StatusView>;

/// The message with which a report is refused because the order has reached
/// the reported status already, or gone beyond it.
pub open spec fn already_text(target: DeliveryStatus) -> Seq<char> {
    match target {
        DeliveryStatus::RiderUnaccept => "internal server error"@,
        DeliveryStatus::RiderAccepted => "order has already accepted"@,
        DeliveryStatus::RiderPickedUp => "order has already picked up"@,
        DeliveryStatus::RiderDelivered => "order has already delivered"@,
    }
}

/// The refusal of a report that would not move the order forwards.
pub open spec fn refusal(target: DeliveryStatus) -> StatusView {
    match target {
        DeliveryStatus::RiderUnaccept => StatusView::internal(already_text(target)),
        _ => StatusView::failed_precondition(already_text(target)),
    }
}

/// The guard of the state machine: an order in status `current` takes a
/// report of `target` only if `target` lies further on in the lifecycle.
pub open spec fn guard(current: DeliveryStatus, target: DeliveryStatus) -> ReportAnswerView {
    if current.may_become(target) {
        Ok(())
    } else {
        Err(refusal(target))
    }
}

/// What is wrong with a request on its face, if anything.
pub open spec fn request_fault(request: ReportDeliveryStatusRequestView) -> Option<StatusView> {
    if request.order_id.len() == 0 {
        Some(StatusView::invalid_argument("Order ID cannot be empty"@))
    } else if request.rider_id.len() == 0 {
        Some(StatusView::invalid_argument("Rider ID cannot be empty"@))
    } else if request.status == DeliveryStatus::RiderUnaccept {
        Some(StatusView::invalid_argument("Status should not be UNACCEPT"@))
    } else {
        None
    }
}

/// The answer to every failure of the cache or the broker.
pub open spec fn unavailable() -> StatusView {
    StatusView::internal("server internal error"@)
}

/// The event that tells of an accepted report.
pub open spec fn assigned_event(
    request: ReportDeliveryStatusRequestView,
    now: Timestamp,
) -> BusMessageView {
    BusMessageView::RiderAssigned {
        order_id: request.order_id,
        rider_id: request.rider_id,
        assign_time: Some(now),
    }
}

/// The first step of a report.
pub open spec fn report_start(request: ReportDeliveryStatusRequestView) -> StepView<
    ReportFlowView,
    ReportAnswerView,
> {
    match request_fault(request) {
        Some(fault) => StepView::Finish(Err(fault)),
        None => StepView::Perform(
            ReportFlowView { phase: ReportPhase::AwaitStatus, request },
            EffectView::GetStatus { order_id: request.order_id },
        ),
    }
}

/// The step of a report that follows a reply, at the moment `now`.
pub open spec fn report_resume(flow: ReportFlowView, reply: ReplyView, now: Timestamp) -> StepView<
    ReportFlowView,
    ReportAnswerView,
> {
    let request = flow.request;
    match (flow.phase, reply) {
        (ReportPhase::AwaitStatus, ReplyView::StatusName(name)) => match DeliveryStatus::parse(
            name,
        ) {
            None => StepView::Finish(Err(StatusView::internal("invalid status value"@))),
            Some(current) => match guard(current, request.status) {
                Err(status) => StepView::Finish(Err(status)),
                Ok(_) => StepView::Perform(
                    ReportFlowView { phase: ReportPhase::AwaitWrite, request },
                    EffectView::SetStatus { order_id: request.order_id, status: request.status },
                ),
            },
        },
        (ReportPhase::AwaitWrite, ReplyView::Done) => StepView::Perform(
            ReportFlowView { phase: ReportPhase::AwaitPublish, request },
            EffectView::Publish {
                routing_key: RIDER_ASSIGNED_KEY@,
                message: assigned_event(request, now),
            },
        ),
        (ReportPhase::AwaitPublish, ReplyView::Done) => StepView::Finish(Ok(())),
        _ => StepView::Finish(Err(unavailable())),
    }
}

/// Checks a report against the status of its order.
pub fn check_transition(current: DeliveryStatus, target: DeliveryStatus) -> (answer: ReportAnswer)
    ensures
        answer_view(answer) == guard(current, target),
{
    if current.can_become(target) {
        Ok(())
    } else {
        match target {
            DeliveryStatus::RiderUnaccept => Err(Status::internal("internal server error")),
            DeliveryStatus::RiderAccepted => Err(
                Status::failed_precondition("order has already accepted"),
            ),
            DeliveryStatus::RiderPickedUp => Err(
                Status::failed_precondition("order has already picked up"),
            ),
            DeliveryStatus::RiderDelivered => Err(
                Status::failed_precondition("order has already delivered"),
            ),
        }
    }
}

/// Checks a request on its face.
pub fn validate_report(request: &ReportDeliveryStatusRequest) -> (fault: Option<Status>)
    ensures
        match fault {
            Some(status) => request_fault(request@) == Some(status@),
            None => request_fault(request@) is None,
        },
{
    if request.order_id.as_str().is_empty() {
        Some(Status::invalid_argument("Order ID cannot be empty"))
    } else if request.rider_id.as_str().is_empty() {
        Some(Status::invalid_argument("Rider ID cannot be empty"))
    } else if request.status == DeliveryStatus::RiderUnaccept {
        Some(Status::invalid_argument("Status should not be UNACCEPT"))
    } else {
        None
    }
}

impl MyDelivery {
    /// Takes up a report: refuses it on its face, or asks for the status of
    /// the order.
    pub fn report_delivery_status(request: ReportDeliveryStatusRequest) -> (step: Step<
        ReportFlow,
        ReportAnswer,
    >)
        ensures
            step.view_as(|a: ReportAnswer| answer_view(a)) == report_start(request@),
    {
        match validate_report(&request) {
            Some(fault) => Step::Finish(Err(fault)),
            None => {
                let order_id = request.order_id.clone();
                Step::Perform(
                    ReportFlow { phase: ReportPhase::AwaitStatus, request },
                    Effect::GetStatus { order_id },
                )
            },
        }
    }
}

impl ReportFlow {
    /// Goes on with a report after a reply, reading the clock for the time of
    /// the event.
    pub fn resume(self, reply: Reply) -> (step: Step<ReportFlow, ReportAnswer>)
        ensures
            exists|now: Timestamp|
                step.view_as(|a: ReportAnswer| answer_view(a)) == #[trigger] report_resume(
                    self@,
                    reply@,
                    now,
                ),
    {
        let now = current_time();
        self.resume_at(reply, now)
    }

    /// Goes on with a report after a reply, at the moment given.
    pub fn resume_at(self, reply: Reply, now: Timestamp) -> (step: Step<ReportFlow, ReportAnswer>)
        ensures
            step.view_as(|a: ReportAnswer| answer_view(a)) == report_resume(self@, reply@, now),
    {
        let request = self.request;
        match (self.phase, reply) {
            (ReportPhase::AwaitStatus, Reply::StatusName(name)) => {
                match DeliveryStatus::from_str_name(name.as_str()) {
                    None => Step::Finish(Err(Status::internal("invalid status value"))),
                    Some(current) => match check_transition(current, request.status) {
                        Err(status) => Step::Finish(Err(status)),
                        Ok(_) => {
                            let effect = Effect::SetStatus {
                                order_id: request.order_id.clone(),
                                status: request.status,
                            };
                            Step::Perform(
                                ReportFlow { phase: ReportPhase::AwaitWrite, request },
                                effect,
                            )
                        },
                    },
                }
            },
            (ReportPhase::AwaitWrite, Reply::Done) => {
                let event = RiderAssignedEvent {
                    order_id: request.order_id.clone(),
                    rider_id: request.rider_id.clone(),
                    assign_time: Some(now),
                };
                let effect = Effect::Publish {
                    routing_key: String::from_str(RIDER_ASSIGNED_KEY),
                    message: BusMessage::RiderAssigned(event),
                };
                Step::Perform(ReportFlow { phase: ReportPhase::AwaitPublish, request }, effect)
            },
            (ReportPhase::AwaitPublish, Reply::Done) => Step::Finish(Ok(())),
            _ => Step::Finish(Err(Status::internal("server internal error"))),
        }
    }
}

/// A report run to its end against the model of the world: the world that is
/// left, and the answer.
pub open spec fn report_run(
    world: World,
    request: ReportDeliveryStatusRequestView,
    now: Timestamp,
) -> (World, Option<ReportAnswerView>) {
    drive(
        world,
        report_start(request),
        |f: ReportFlowView, r: ReplyView| report_resume(f, r, now),
        3,
    )
}

/// Every legal transition is accepted exactly once.
///
/// Take a request that is sound on its face and an order whose status the
/// cache holds, and let the reported status lie further on in the lifecycle.
/// Then the report is accepted: the cache holds the reported status
/// afterwards, nothing else in the world changes but that one
/// `rider.assigned.event` is published for the order and the rider. The same
/// report made again is refused as a failed precondition and changes nothing.
pub proof fn law_legal_transition_accepted_once(
    world: World,
    request: ReportDeliveryStatusRequestView,
    current: DeliveryStatus,
    first: Timestamp,
    second: Timestamp,
)
    requires
        request_fault(request) is None,
        world.statuses.contains_key(request.order_id),
        world.statuses[request.order_id] == current.name(),
        current.may_become(request.status),
    ensures
        ({
            let (after, answer) = report_run(world, request, first);
            &&& answer == Some(Ok::<(), StatusView>(()))
            &&& after == (World {
                statuses: world.statuses.insert(request.order_id, request.status.name()),
                published: world.published.push(
                    Published {
                        routing_key: RIDER_ASSIGNED_KEY@,
                        message: assigned_event(request, first),
                    },
                ),
                ..world
            })
            &&& report_run(after, request, second) == (
                after,
                Some(
                    Err::<(), StatusView>(
                        StatusView::failed_precondition(already_text(request.status)),
                    ),
                ),
            )
        }),
{
    reveal_with_fuel(drive, 4);
    law_name_round_trip(current);
    law_name_round_trip(request.status);
}

/// An order that has been placed takes any report.
///
/// Once the event of an order has been handled, a request for that order
/// that is sound on its face is accepted, whatever status it reports: the
/// handling has left the order in `RIDER_UNACCEPT`, from where every other
/// status lies further on.
pub proof fn law_placed_order_takes_any_report(
    world: World,
    event: OrderPlacedEventView,
    code: int,
    placed: Timestamp,
    request: ReportDeliveryStatusRequestView,
    reported: Timestamp,
)
    requires
        MIN_PICKUP_CODE <= code <= MAX_PICKUP_CODE,
        event.order is Some,
        prepared_for(event.order->Some_0, code) matches Ok((_, info)) && info.pickup_location is Some
            && info.drop_off_location is Some,
        request_fault(request) is None,
        request.order_id == event.order->Some_0.order_id,
    ensures
        ({
            let seen = order_placed_run(world, event, code, placed).0;
            let (after, answer) = report_run(seen, request, reported);
            &&& answer == Some(Ok::<(), StatusView>(()))
            &&& after.statuses[request.order_id] == request.status.name()
        }),
{
    law_order_placed_effects(world, event, code, placed);
    let seen = order_placed_run(world, event, code, placed).0;
    law_legal_transition_accepted_once(
        seen,
        request,
        DeliveryStatus::RiderUnaccept,
        reported,
        reported,
    );
}

/// A report never moves an order back, and keeps the store and the cache in
/// agreement, however it ends.
///
/// Where the cache held a status for the order before the report, it holds
/// one afterwards that lies no earlier in the lifecycle; and the status of no
/// other order changes.
pub proof fn law_report_never_moves_back(
    world: World,
    request: ReportDeliveryStatusRequestView,
    now: Timestamp,
)
    requires
        world.consistent(),
    ensures
        ({
            let (after, answer) = report_run(world, request, now);
            &&& answer is Some
            &&& after.consistent()
            &&& after.deliveries == world.deliveries
            &&& forall|order_id: Seq<char>|
                order_id != request.order_id ==> (#[trigger] after.statuses.contains_key(order_id)
                    <==> world.statuses.contains_key(order_id)) && (world.statuses.contains_key(
                    order_id,
                ) ==> after.statuses[order_id] == world.statuses[order_id])
            &&& world.statuses.contains_key(request.order_id) ==> {
                &&& after.statuses.contains_key(request.order_id)
                &&& DeliveryStatus::parse(world.statuses[request.order_id]) matches Some(before)
                    ==> DeliveryStatus::parse(after.statuses[request.order_id]) matches Some(then)
                    && before.rank() <= then.rank()
            }
        }),
{
    reveal_with_fuel(drive, 4);
    law_name_round_trip(request.status);
    let after = report_run(world, request, now).0;
    assert forall|order_id: Seq<char>| #[trigger]
        after.deliveries.contains_key(order_id) implies {
        &&& after.deliveries[order_id].created.order_id == order_id
        &&& crate::delivery::is_pickup_code(after.deliveries[order_id].created.pickup_code)
        &&& after.statuses.contains_key(order_id)
        &&& DeliveryStatus::parse(after.statuses[order_id]) is Some
    } by {
        assert(world.deliveries.contains_key(order_id));
    }
}

/// A report that would not move its order forwards is refused and changes
/// nothing, whatever the order's status in the cache.
pub proof fn law_stale_report_refused(
    world: World,
    request: ReportDeliveryStatusRequestView,
    current: DeliveryStatus,
    now: Timestamp,
)
    requires
        request_fault(request) is None,
        world.statuses.contains_key(request.order_id),
        world.statuses[request.order_id] == current.name(),
        !current.may_become(request.status),
    ensures
        report_run(world, request, now) == (
            world,
            Some(Err::<(), StatusView>(StatusView::failed_precondition(already_text(request.status)))),
        ),
{
    reveal_with_fuel(drive, 4);
    law_name_round_trip(current);
}

} // verus!
