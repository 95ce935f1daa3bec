//! The requests that write to the store: `ConfirmRiderAccept`,
//! `ConfirmOrderDeliver` and `CreateRider`.

use crate::delivery::MyDelivery;
use crate::effects::{Effect, EffectView, Reply, ReplyView, Step, StepView};
use crate::geo::Point;
use crate::messages::{
    ConfirmOrderDeliverRequest, ConfirmRiderAcceptRequest, ConfirmRiderAcceptRequestView,
    CreateRiderRequest, CreateRiderRequestView, PickupInfo, PickupInfoView, Rider, RiderView,
};
use crate::models::{
    DbDelivery, DbDeliveryStatus, DbDeliveryView, DbPoint, DbRiderView, NewRider, NewRiderView,
};
use crate::rpc::{answer_view, Status, StatusView};
use crate::world::{drive, StoredDelivery, World};
use vstd::prelude::*;
use vstd::string::*;

verus! {

/// The answer to every failure of the store.
pub open spec fn store_unavailable() -> StatusView {
    StatusView::internal("server internal error"@)
}

/// A stored point as callers see it.
pub open spec fn point_of(stored: DbPoint) -> Point {
    Point { latitude_e7: stored.latitude_e7, longitude_e7: stored.longitude_e7 }
}

/// The pickup information that a delivery row holds.
pub open spec fn pickup_info_of(delivery: DbDeliveryView) -> PickupInfoView {
    PickupInfoView {
        pickup_code: delivery.pickup_code,
        pickup_location: Some(point_of(delivery.pickup_location)),
        drop_off_location: Some(point_of(delivery.drop_off_location)),
    }
}

/// Reads the pickup information off a delivery row.
pub fn pickup_info(delivery: DbDelivery) -> (info: PickupInfo)
    ensures
        info@ == pickup_info_of(delivery@),
{
    PickupInfo {
        pickup_code: delivery.pickup_code,
        pickup_location: Some(
            Point {
                latitude_e7: delivery.pickup_location.latitude_e7,
                longitude_e7: delivery.pickup_location.longitude_e7,
            },
        ),
        drop_off_location: Some(
            Point {
                latitude_e7: delivery.drop_off_location.latitude_e7,
                longitude_e7: delivery.drop_off_location.longitude_e7,
            },
        ),
    }
}

/// Whether a delivery may still be accepted, by its status column; if not,
/// the refusal.
pub open spec fn acceptance_fault(column: DbDeliveryStatus) -> Option<StatusView> {
    match column {
        DbDeliveryStatus::Unaccept => None,
        DbDeliveryStatus::Delivered => Some(StatusView::invalid_argument("rider already accepted"@)),
        DbDeliveryStatus::Accepted => Some(StatusView::invalid_argument("order already delivered"@)),
    }
}

/// Checks whether a delivery may still be accepted.
pub fn check_acceptance(column: DbDeliveryStatus) -> (fault: Option<Status>)
    ensures
        match fault {
            Some(status) => acceptance_fault(column) == Some(status@),
            None => acceptance_fault(column) is None,
        },
{
    match column {
        DbDeliveryStatus::Unaccept => None,
        DbDeliveryStatus::Delivered => Some(Status::invalid_argument("rider already accepted")),
        DbDeliveryStatus::Accepted => Some(Status::invalid_argument("order already delivered")),
    }
}

/// How far the acceptance of an order has come.
#[derive(Clone, Debug, PartialEq, Eq)]
pub enum AcceptFlow {
    /// The delivery row has been asked for.
    AwaitDelivery { request: ConfirmRiderAcceptRequest },
    /// The rider is being written to the row.
    AwaitRider { order_id: String, pickup: PickupInfo },
    /// The status column is being written.
    AwaitColumn { pickup: PickupInfo },
}

/// An `AcceptFlow` as a mathematical value.
pub enum AcceptFlowView {
    AwaitDelivery { request: ConfirmRiderAcceptRequestView },
    AwaitRider { order_id: Seq<char>, pickup: PickupInfoView },
    AwaitColumn { pickup: PickupInfoView },
}

impl View for AcceptFlow {
    type V = AcceptFlowView;

    open spec fn view(&self) -> AcceptFlowView {
        match self {
            AcceptFlow::AwaitDelivery { request } => AcceptFlowView::AwaitDelivery {
                request: request@,
            },
            AcceptFlow::AwaitRider { order_id, pickup } => AcceptFlowView::AwaitRider {
                order_id: order_id@,
                pickup: pickup@,
            },
            AcceptFlow::AwaitColumn { pickup } => AcceptFlowView::AwaitColumn { pickup: pickup@ },
        }
    }
}

/// What the acceptance of an order is answered with.
pub type AcceptAnswer = Result<PickupInfo, Status>;

/// An `AcceptAnswer` as a mathematical value.
pub type AcceptAnswerView = Result<PickupInfoView, StatusView>;

/// The view of the answer to an acceptance.
pub open spec fn accept_answer_view(answer: AcceptAnswer) -> AcceptAnswerView {
    match answer {
        Ok(info) => Ok(info@),
        Err(status) => Err(status@),
    }
}

/// The first step of an acceptance: to ask for the delivery row.
pub open spec fn accept_start(request: ConfirmRiderAcceptRequestView) -> StepView<
    AcceptFlowView,
    AcceptAnswerView,
> {
    StepView::Perform(
        AcceptFlowView::AwaitDelivery { request },
        EffectView::GetDelivery { order_id: request.order_id },
    )
}

/// The step of an acceptance that follows a reply.
pub open spec fn accept_resume(flow: AcceptFlowView, reply: ReplyView) -> StepView<
    AcceptFlowView,
    AcceptAnswerView,
> {
    match (flow, reply) {
        (
            AcceptFlowView::AwaitDelivery { request },
            ReplyView::Delivery(delivery),
        ) => match acceptance_fault(delivery.status) {
            Some(fault) => StepView::Finish(Err(fault)),
            None => StepView::Perform(
                AcceptFlowView::AwaitRider {
                    order_id: request.order_id,
                    pickup: pickup_info_of(delivery),
                },
                EffectView::UpdateDeliveryRider {
                    order_id: request.order_id,
                    rider_id: request.rider_id,
                },
            ),
        },
        (AcceptFlowView::AwaitDelivery { request }, _) => StepView::Finish(
            Err(StatusView::internal("Failed to get delivery"@)),
        ),
        (AcceptFlowView::AwaitRider { order_id, pickup }, ReplyView::Done) => StepView::Perform(
            AcceptFlowView::AwaitColumn { pickup },
            EffectView::UpdateDeliveryStatus { order_id, column: DbDeliveryStatus::Accepted },
        ),
        (AcceptFlowView::AwaitColumn { pickup }, ReplyView::Done) => StepView::Finish(Ok(pickup)),
        _ => StepView::Finish(Err(store_unavailable())),
    }
}

/// How far the creation of a rider has come.
#[derive(Clone, Debug, PartialEq, Eq)]
pub enum CreateRiderFlow {
    /// The rider row is being inserted.
    AwaitInsert { rider_id: String },
    /// The rider row is being read back.
    AwaitRow,
}

/// A `CreateRiderFlow` as a mathematical value.
pub enum CreateRiderFlowView {
    AwaitInsert { rider_id: Seq<char> },
    AwaitRow,
}

impl View for CreateRiderFlow {
    type V = CreateRiderFlowView;

    open spec fn view(&self) -> CreateRiderFlowView {
        match self {
            CreateRiderFlow::AwaitInsert { rider_id } => CreateRiderFlowView::AwaitInsert {
                rider_id: rider_id@,
            },
            CreateRiderFlow::AwaitRow => CreateRiderFlowView::AwaitRow,
        }
    }
}

/// What the creation of a rider is answered with.
pub type CreateRiderAnswer = Result<Rider, Status>;

/// A `CreateRiderAnswer` as a mathematical value.
pub type CreateRiderAnswerView = Result<RiderView, StatusView>;

/// The view of the answer to the creation of a rider.
pub open spec fn rider_answer_view(answer: CreateRiderAnswer) -> CreateRiderAnswerView {
    match answer {
        Ok(rider) => Ok(rider@),
        Err(status) => Err(status@),
    }
}

/// A rider row as callers see it.
pub open spec fn rider_of(row: DbRiderView) -> RiderView {
    RiderView { rider_id: row.id, username: row.username, phone_number: row.phone_number }
}

/// The first step of the creation of a rider: to insert the row, without a
/// telephone number.
pub open spec fn create_rider_start(request: CreateRiderRequestView) -> StepView<
    CreateRiderFlowView,
    CreateRiderAnswerView,
> {
    StepView::Perform(
        CreateRiderFlowView::AwaitInsert { rider_id: request.rider_id },
        EffectView::CreateRider {
            rider: NewRiderView {
                rider_id: request.rider_id,
                username: request.username,
                phone_number: Seq::empty(),
            },
        },
    )
}

/// The step of the creation of a rider that follows a reply: once the row is
/// there it is read back, and the answer is what the store holds.
pub open spec fn create_rider_resume(flow: CreateRiderFlowView, reply: ReplyView) -> StepView<
    CreateRiderFlowView,
    CreateRiderAnswerView,
> {
    match (flow, reply) {
        (
            CreateRiderFlowView::AwaitInsert { rider_id },
            ReplyView::Done | ReplyView::AlreadyExists,
        ) => StepView::Perform(CreateRiderFlowView::AwaitRow, EffectView::GetRider { rider_id }),
        (CreateRiderFlowView::AwaitRow, ReplyView::Rider(row)) => StepView::Finish(
            Ok(rider_of(row)),
        ),
        _ => StepView::Finish(Err(store_unavailable())),
    }
}

/// The delivery of an order while its status column is written.
#[derive(Clone, Copy, Debug, PartialEq, Eq, Structural)]
pub struct DeliverFlow {}

impl View for DeliverFlow {
    type V = DeliverFlow;

    open spec fn view(&self) -> DeliverFlow {
        *self
    }
}

/// What the delivery of an order is answered with.
pub type DeliverAnswer = Result<(), Status>;

/// The first step of the delivery of an order: to write the status column.
pub open spec fn deliver_start(order_id: Seq<char>) -> StepView<DeliverFlow, Result<(), StatusView>> {
    StepView::Perform(
        DeliverFlow {  },
        EffectView::UpdateDeliveryStatus { order_id, column: DbDeliveryStatus::Delivered },
    )
}

/// The step of the delivery of an order that follows the store's reply.
pub open spec fn deliver_resume(flow: DeliverFlow, reply: ReplyView) -> StepView<
    DeliverFlow,
    Result<(), StatusView>,
> {
    if reply is Done {
        StepView::Finish(Ok(()))
    } else {
        StepView::Finish(Err(store_unavailable()))
    }
}

impl MyDelivery {
    /// Takes up the acceptance of an order by a rider.
    pub fn confirm_rider_accept(request: ConfirmRiderAcceptRequest) -> (step: Step<
        AcceptFlow,
        AcceptAnswer,
    >)
        ensures
            step.view_as(|a: AcceptAnswer| accept_answer_view(a)) == accept_start(request@),
    {
        let order_id = request.order_id.clone();
        Step::Perform(AcceptFlow::AwaitDelivery { request }, Effect::GetDelivery { order_id })
    }

    /// Takes up the delivery of an order.
    pub fn confirm_order_deliver(request: ConfirmOrderDeliverRequest) -> (step: Step<
        DeliverFlow,
        DeliverAnswer,
    >)
        ensures
            step.view_as(|a: DeliverAnswer| answer_view(a)) == deliver_start(request.order_id@),
    {
        Step::Perform(
            DeliverFlow {  },
            Effect::UpdateDeliveryStatus {
                order_id: request.order_id,
                column: DbDeliveryStatus::Delivered,
            },
        )
    }

    /// Takes up the creation of a rider.
    pub fn create_rider(request: CreateRiderRequest) -> (step: Step<
        CreateRiderFlow,
        CreateRiderAnswer,
    >)
        ensures
            step.view_as(|a: CreateRiderAnswer| rider_answer_view(a)) == create_rider_start(
                request@,
            ),
    {
        let rider = NewRider {
            rider_id: request.rider_id.clone(),
            username: request.username,
            phone_number: String::new(),
        };
        Step::Perform(
            CreateRiderFlow::AwaitInsert { rider_id: request.rider_id },
            Effect::CreateRider { rider },
        )
    }
}

impl AcceptFlow {
    /// Goes on with an acceptance after a reply.
    pub fn resume(self, reply: Reply) -> (step: Step<AcceptFlow, AcceptAnswer>)
        ensures
            step.view_as(|a: AcceptAnswer| accept_answer_view(a)) == accept_resume(self@, reply@),
    {
        match (self, reply) {
            (AcceptFlow::AwaitDelivery { request }, Reply::Delivery(delivery)) => {
                match check_acceptance(delivery.status) {
                    Some(fault) => Step::Finish(Err(fault)),
                    None => {
                        let effect = Effect::UpdateDeliveryRider {
                            order_id: request.order_id.clone(),
                            rider_id: request.rider_id,
                        };
                        Step::Perform(
                            AcceptFlow::AwaitRider {
                                order_id: request.order_id,
                                pickup: pickup_info(delivery),
                            },
                            effect,
                        )
                    },
                }
            },
            (AcceptFlow::AwaitDelivery { request }, _) => Step::Finish(
                Err(Status::internal("Failed to get delivery")),
            ),
            (AcceptFlow::AwaitRider { order_id, pickup }, Reply::Done) => Step::Perform(
                AcceptFlow::AwaitColumn { pickup },
                Effect::UpdateDeliveryStatus { order_id, column: DbDeliveryStatus::Accepted },
            ),
            (AcceptFlow::AwaitColumn { pickup }, Reply::Done) => Step::Finish(Ok(pickup)),
            _ => Step::Finish(Err(Status::internal("server internal error"))),
        }
    }
}

impl CreateRiderFlow {
    /// Goes on with the creation of a rider after a reply.
    pub fn resume(self, reply: Reply) -> (step: Step<CreateRiderFlow, CreateRiderAnswer>)
        ensures
            step.view_as(|a: CreateRiderAnswer| rider_answer_view(a)) == create_rider_resume(
                self@,
                reply@,
            ),
    {
        match (self, reply) {
            (CreateRiderFlow::AwaitInsert { rider_id }, Reply::Done | Reply::AlreadyExists) => {
                Step::Perform(CreateRiderFlow::AwaitRow, Effect::GetRider { rider_id })
            },
            (CreateRiderFlow::AwaitRow, Reply::Rider(row)) => Step::Finish(
                Ok(Rider { rider_id: row.id, username: row.username, phone_number: row.phone_number }),
            ),
            _ => Step::Finish(Err(Status::internal("server internal error"))),
        }
    }
}

impl DeliverFlow {
    /// Goes on with the delivery of an order after the store's reply.
    pub fn resume(self, reply: Reply) -> (step: Step<DeliverFlow, DeliverAnswer>)
        ensures
            step.view_as(|a: DeliverAnswer| answer_view(a)) == deliver_resume(self@, reply@),
    {
        match reply {
            Reply::Done => Step::Finish(Ok(())),
            _ => Step::Finish(Err(Status::internal("server internal error"))),
        }
    }
}

/// An acceptance run to its end against the model of the world.
pub open spec fn accept_run(world: World, request: ConfirmRiderAcceptRequestView) -> (
    World,
    Option<AcceptAnswerView>,
) {
    drive(
        world,
        accept_start(request),
        |f: AcceptFlowView, r: ReplyView| accept_resume(f, r),
        3,
    )
}

/// An order that no rider has accepted is accepted once.
///
/// The rider is written to the delivery row and its status column becomes
/// `Accepted`; the answer is the pickup information of the row. Nothing else
/// changes. The same request made again is refused as an invalid argument and
/// changes nothing.
pub proof fn law_order_is_accepted_once(world: World, request: ConfirmRiderAcceptRequestView)
    requires
        world.deliveries.contains_key(request.order_id),
        world.deliveries[request.order_id].column == DbDeliveryStatus::Unaccept,
    ensures
        ({
            let row = world.deliveries[request.order_id];
            let (after, answer) = accept_run(world, request);
            &&& answer == Some(
                Ok::<PickupInfoView, StatusView>(pickup_info_of(world.delivery(request.order_id))),
            )
            &&& after == (World {
                deliveries: world.deliveries.insert(
                    request.order_id,
                    StoredDelivery {
                        rider_id: Some(request.rider_id),
                        column: DbDeliveryStatus::Accepted,
                        ..row
                    },
                ),
                ..world
            })
            &&& accept_run(after, request) == (
                after,
                Some(
                    Err::<PickupInfoView, StatusView>(
                        StatusView::invalid_argument("order already delivered"@),
                    ),
                ),
            )
        }),
{
    reveal_with_fuel(drive, 4);
    let row = world.deliveries[request.order_id];
    let middle = world.deliveries.insert(
        request.order_id,
        StoredDelivery { rider_id: Some(request.rider_id), ..row },
    );
    assert(middle.insert(
        request.order_id,
        StoredDelivery { column: DbDeliveryStatus::Accepted, ..middle[request.order_id] },
    ) =~= world.deliveries.insert(
        request.order_id,
        StoredDelivery {
            rider_id: Some(request.rider_id),
            column: DbDeliveryStatus::Accepted,
            ..row
        },
    ));
}

} // verus!
