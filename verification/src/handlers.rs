//! The handlers of the two events that the service consumes.
//!
//! `order.placed.event` sets the order's status in the cache, prepares the
//! delivery, stores it, notifies the riders and publishes
//! `rider.notified.event`. `sync.rider.created` stores the rider under the
//! name that stands before the `@` of the e-mail address.

use crate::bus::RIDER_NOTIFIED_KEY;
use crate::delivery::{
    code_text, is_pickup_code, notice_views, notices_for, prepared_for, DeliveryError, MyDelivery,
    RiderNotice, RiderNoticeView, MAX_PICKUP_CODE, MIN_PICKUP_CODE,
};
use crate::effects::{Effect, EffectView, Reply, ReplyView, Step, StepView};
use crate::geo::Point;
use crate::messages::{
    BusMessage, BusMessageView, OrderPlacedEvent, OrderPlacedEventView, PlaceOrder, PlaceOrderView,
    RiderNotifiedEvent, SyncRiderCreated, SyncRiderCreatedView, Timestamp,
};
use crate::models::{DbPoint, NewDelivery, NewDeliveryView, NewRider, NewRiderView};
use crate::outside::{current_time, random_in};
use crate::models::DbRiderView;
use crate::status::{law_name_round_trip, DeliveryStatus};
use crate::world::{drive, Published, StoredDelivery, World};
use vstd::prelude::*;
use vstd::string::*;

verus! {

/// Why a handler gave up on a message.
#[derive(Clone, Copy, Debug, PartialEq, Eq, Structural)]
pub enum HandlerError {
    /// The event holds no order.
    MissingOrder,
    /// The e-mail address holds no `@`.
    MalformedEmail,
    /// The order lacks an address.
    Delivery(DeliveryError),
    /// The district of an address is not known, so the delivery has no place
    /// to start from or to go to.
    UnknownLocation,
    /// The status cache did not take the status.
    CacheUnavailable,
    /// The store did not take the row.
    StoreUnavailable,
    /// The broker did not confirm the message.
    PublishRejected,
}

/// The kinds of failure, by what is to become of the message.
#[derive(Clone, Copy, Debug, PartialEq, Eq, Structural)]
pub enum ErrorKind {
    /// The message can never be handled: it is acknowledged and dropped.
    InvalidPayload,
    /// The cache or the store is out of reach: the message is left for
    /// redelivery.
    TransportError,
    /// The broker did not confirm: the message is left for redelivery.
    PublishRejected,
}

impl HandlerError {
    /// The kind of the failure.
    pub open spec fn kind_of(self) -> ErrorKind {
        match self {
            HandlerError::MissingOrder => ErrorKind::InvalidPayload,
            HandlerError::MalformedEmail => ErrorKind::InvalidPayload,
            HandlerError::Delivery(_) => ErrorKind::InvalidPayload,
            HandlerError::UnknownLocation => ErrorKind::InvalidPayload,
            HandlerError::CacheUnavailable => ErrorKind::TransportError,
            HandlerError::StoreUnavailable => ErrorKind::TransportError,
            HandlerError::PublishRejected => ErrorKind::PublishRejected,
        }
    }

    /// Tells the kind of the failure.
    pub fn kind(&self) -> (kind: ErrorKind)
        ensures
            kind == self.kind_of(),
    {
        match self {
            HandlerError::MissingOrder => ErrorKind::InvalidPayload,
            HandlerError::MalformedEmail => ErrorKind::InvalidPayload,
            HandlerError::Delivery(_) => ErrorKind::InvalidPayload,
            HandlerError::UnknownLocation => ErrorKind::InvalidPayload,
            HandlerError::CacheUnavailable => ErrorKind::TransportError,
            HandlerError::StoreUnavailable => ErrorKind::TransportError,
            HandlerError::PublishRejected => ErrorKind::PublishRejected,
        }
    }
}

/// What a handler answers with.
pub type HandlerAnswer = Result<(), HandlerError>;

/// The stored form of a point.
pub open spec fn db_point(point: Point) -> DbPoint {
    DbPoint { latitude_e7: point.latitude_e7, longitude_e7: point.longitude_e7 }
}

/// Whether `at` is the first place in a text at which a character stands.
pub open spec fn first_at(text: Seq<char>, wanted: char, at: int) -> bool {
    &&& 0 <= at < text.len()
    &&& text[at] == wanted
    &&& forall|j: int| 0 <= j < at ==> text[j] != wanted
}

/// The user name of an e-mail address: what stands before its first `@`.
/// An address without `@` has none.
pub open spec fn username_of(email: Seq<char>) -> Option<Seq<char>> {
    if email.contains('@') {
        Some(email.subrange(0, choose|at: int| first_at(email, '@', at)))
    } else {
        None
    }
}

/// The user name of an e-mail address stands before its first `@`: it holds
/// no `@` itself, an `@` follows it, and the address begins with it. An
/// address has no user name only if it holds no `@` at all.
pub proof fn law_username_stands_before_the_first_at(email: Seq<char>)
    ensures
        match username_of(email) {
            Some(name) => {
                &&& !name.contains('@')
                &&& name.len() < email.len()
                &&& email[name.len() as int] == '@'
                &&& email.subrange(0, name.len() as int) == name
            },
            None => !email.contains('@'),
        },
{
    if email.contains('@') {
        let found = choose|i: int| 0 <= i < email.len() && email[i] == '@';
        lemma_first_exists(email, '@', found);
        let at = choose|at: int| first_at(email, '@', at);
        let name = email.subrange(0, at);
        assert forall|j: int| 0 <= j < name.len() implies name[j] != '@' by {
            assert(name[j] == email[j]);
        }
    }
}

proof fn lemma_first_exists(text: Seq<char>, wanted: char, found: int)
    requires
        0 <= found < text.len(),
        text[found] == wanted,
    ensures
        exists|at: int| first_at(text, wanted, at),
    decreases found,
{
    if exists|j: int| 0 <= j < found && text[j] == wanted {
        let earlier = choose|j: int| 0 <= j < found && text[j] == wanted;
        lemma_first_exists(text, wanted, earlier);
    } else {
        assert(first_at(text, wanted, found));
    }
}

/// The view of a text that may be absent.
pub open spec fn text_view(text: Option<String>) -> Option<Seq<char>> {
    match text {
        Some(t) => Some(t@),
        None => None,
    }
}

/// Takes the user name out of an e-mail address.
pub fn username_from_email(email: &str) -> (username: Option<String>)
    ensures
        text_view(username) == username_of(email@),
{
    let length: usize = email.unicode_len();
    let mut index: usize = 0;
    for c in iter: email.chars()
        invariant
            index == iter.index(),
            length == email@.len(),
            iter.seq() == email@,
            forall|j: int| 0 <= j < index ==> email@[j] != '@',
    {
        if c == '@' {
            proof {
                assert(first_at(email@, '@', index as int));
                let chosen = choose|at: int| first_at(email@, '@', at);
                assert(chosen == index);
            }
            return Some(String::from_str(email.substring_char(0, index)));
        }
        index = index + 1;
    }
    assert(!email@.contains('@'));
    None
}

/// How far the handling of a placed order has come.
#[derive(Clone, Debug, PartialEq, Eq)]
pub enum OrderPlacedFlow {
    /// The status of the order is being set in the cache.
    AwaitStatus { order: PlaceOrder },
    /// The delivery is being stored.
    AwaitStore { order_id: String, notices: Vec<RiderNotice> },
    /// The riders are being notified.
    AwaitNotify { order_id: String },
    /// The event is being published.
    AwaitPublish,
}

/// An `OrderPlacedFlow` as a mathematical value.
pub enum OrderPlacedFlowView {
    AwaitStatus { order: PlaceOrderView },
    AwaitStore { order_id: Seq<char>, notices: Seq<RiderNoticeView> },
    AwaitNotify { order_id: Seq<char> },
    AwaitPublish,
}

impl View for OrderPlacedFlow {
    type V = OrderPlacedFlowView;

    open spec fn view(&self) -> OrderPlacedFlowView {
        match self {
            OrderPlacedFlow::AwaitStatus { order } => OrderPlacedFlowView::AwaitStatus {
                order: order@,
            },
            OrderPlacedFlow::AwaitStore { order_id, notices } => OrderPlacedFlowView::AwaitStore {
                order_id: order_id@,
                notices: notice_views(notices@),
            },
            OrderPlacedFlow::AwaitNotify { order_id } => OrderPlacedFlowView::AwaitNotify {
                order_id: order_id@,
            },
            OrderPlacedFlow::AwaitPublish => OrderPlacedFlowView::AwaitPublish,
        }
    }
}

/// The event that tells that the riders of an order were notified.
pub open spec fn notified_event(order_id: Seq<char>, now: Timestamp) -> BusMessageView {
    BusMessageView::RiderNotified { order_id, notify_time: Some(now) }
}

/// The first step of the handling of a placed order.
pub open spec fn order_placed_start(event: OrderPlacedEventView) -> StepView<
    OrderPlacedFlowView,
    HandlerAnswer,
> {
    match event.order {
        None => StepView::Finish(Err(HandlerError::MissingOrder)),
        Some(order) => StepView::Perform(
            OrderPlacedFlowView::AwaitStatus { order },
            EffectView::SetStatus { order_id: order.order_id, status: DeliveryStatus::RiderUnaccept },
        ),
    }
}

/// The step of the handling of a placed order that follows a reply, with the
/// pickup code `code` and at the moment `now`.
pub open spec fn order_placed_resume(
    flow: OrderPlacedFlowView,
    reply: ReplyView,
    code: int,
    now: Timestamp,
) -> StepView<OrderPlacedFlowView, HandlerAnswer> {
    match flow {
        OrderPlacedFlowView::AwaitStatus { order } => match reply {
            ReplyView::Done => match prepared_for(order, code) {
                Err(e) => StepView::Finish(Err(HandlerError::Delivery(e))),
                Ok((riders, info)) => match (info.pickup_location, info.drop_off_location) {
                    (Some(pickup), Some(drop_off)) => StepView::Perform(
                        OrderPlacedFlowView::AwaitStore {
                            order_id: order.order_id,
                            notices: notices_for(riders, info.pickup_code),
                        },
                        EffectView::CreateDelivery {
                            delivery: NewDeliveryView {
                                order_id: order.order_id,
                                pickup_code: info.pickup_code,
                                pickup_location: db_point(pickup),
                                drop_off_location: db_point(drop_off),
                                create_time: now,
                            },
                        },
                    ),
                    _ => StepView::Finish(Err(HandlerError::UnknownLocation)),
                },
            },
            _ => StepView::Finish(Err(HandlerError::CacheUnavailable)),
        },
        OrderPlacedFlowView::AwaitStore { order_id, notices } => match reply {
            ReplyView::Done | ReplyView::AlreadyExists => StepView::Perform(
                OrderPlacedFlowView::AwaitNotify { order_id },
                EffectView::NotifyRiders { notices },
            ),
            _ => StepView::Finish(Err(HandlerError::StoreUnavailable)),
        },
        OrderPlacedFlowView::AwaitNotify { order_id } => StepView::Perform(
            OrderPlacedFlowView::AwaitPublish,
            EffectView::Publish {
                routing_key: RIDER_NOTIFIED_KEY@,
                message: notified_event(order_id, now),
            },
        ),
        OrderPlacedFlowView::AwaitPublish => match reply {
            ReplyView::Done => StepView::Finish(Ok(())),
            _ => StepView::Finish(Err(HandlerError::PublishRejected)),
        },
    }
}

/// Takes up a placed order: gives up on an event without an order, or sets
/// the status of the order in the cache.
pub fn handle_order_placed(event: OrderPlacedEvent) -> (step: Step<OrderPlacedFlow, HandlerAnswer>)
    ensures
        step.view_as(|a: HandlerAnswer| a) == order_placed_start(event@),
{
    match event.order {
        None => Step::Finish(Err(HandlerError::MissingOrder)),
        Some(order) => {
            let effect = Effect::SetStatus {
                order_id: order.order_id.clone(),
                status: DeliveryStatus::RiderUnaccept,
            };
            Step::Perform(OrderPlacedFlow::AwaitStatus { order }, effect)
        },
    }
}

impl OrderPlacedFlow {
    /// Goes on with a placed order after a reply, drawing the pickup code at
    /// random and reading the clock.
    pub fn resume(self, reply: Reply) -> (step: Step<OrderPlacedFlow, HandlerAnswer>)
        ensures
            exists|code: int, now: Timestamp|
                MIN_PICKUP_CODE <= code <= MAX_PICKUP_CODE && step.view_as(|a: HandlerAnswer| a)
                    == #[trigger] order_placed_resume(self@, reply@, code, now),
    {
        let code: i32 = random_in(MIN_PICKUP_CODE, MAX_PICKUP_CODE);
        let now = current_time();
        let ghost before = self@;
        let ghost reply_view = reply@;
        let step = self.resume_with(reply, code, now);
        assert(step.view_as(|a: HandlerAnswer| a) == order_placed_resume(
            before,
            reply_view,
            code as int,
            now,
        ));
        step
    }

    /// Goes on with a placed order after a reply, with the pickup code and the
    /// moment given.
    pub fn resume_with(self, reply: Reply, code: i32, now: Timestamp) -> (step: Step<
        OrderPlacedFlow,
        HandlerAnswer,
    >)
        requires
            MIN_PICKUP_CODE <= code <= MAX_PICKUP_CODE,
        ensures
            step.view_as(|a: HandlerAnswer| a) == order_placed_resume(
                self@,
                reply@,
                code as int,
                now,
            ),
    {
        match self {
            OrderPlacedFlow::AwaitStatus { order } => match reply {
                Reply::Done => match MyDelivery::prepare_with_code(&order, code) {
                    Err(e) => Step::Finish(Err(HandlerError::Delivery(e))),
                    Ok((riders, info)) => match (info.pickup_location, info.drop_off_location) {
                        (Some(pickup), Some(drop_off)) => {
                            let notices = MyDelivery::notify_riders(&riders, &info);
                            let delivery = NewDelivery {
                                order_id: order.order_id.clone(),
                                pickup_code: info.pickup_code,
                                pickup_location: DbPoint {
                                    latitude_e7: pickup.latitude_e7,
                                    longitude_e7: pickup.longitude_e7,
                                },
                                drop_off_location: DbPoint {
                                    latitude_e7: drop_off.latitude_e7,
                                    longitude_e7: drop_off.longitude_e7,
                                },
                                create_time: now,
                            };
                            Step::Perform(
                                OrderPlacedFlow::AwaitStore { order_id: order.order_id, notices },
                                Effect::CreateDelivery { delivery },
                            )
                        },
                        _ => Step::Finish(Err(HandlerError::UnknownLocation)),
                    },
                },
                _ => Step::Finish(Err(HandlerError::CacheUnavailable)),
            },
            OrderPlacedFlow::AwaitStore { order_id, notices } => match reply {
                Reply::Done | Reply::AlreadyExists => Step::Perform(
                    OrderPlacedFlow::AwaitNotify { order_id },
                    Effect::NotifyRiders { notices },
                ),
                _ => Step::Finish(Err(HandlerError::StoreUnavailable)),
            },
            OrderPlacedFlow::AwaitNotify { order_id } => {
                let event = RiderNotifiedEvent { order_id, notify_time: Some(now) };
                Step::Perform(
                    OrderPlacedFlow::AwaitPublish,
                    Effect::Publish {
                        routing_key: String::from_str(RIDER_NOTIFIED_KEY),
                        message: BusMessage::RiderNotified(event),
                    },
                )
            },
            OrderPlacedFlow::AwaitPublish => match reply {
                Reply::Done => Step::Finish(Ok(())),
                _ => Step::Finish(Err(HandlerError::PublishRejected)),
            },
        }
    }
}

/// The handling of a new rider while the store takes the row.
#[derive(Clone, Copy, Debug, PartialEq, Eq, Structural)]
pub struct RiderCreatedFlow {}

impl View for RiderCreatedFlow {
    type V = RiderCreatedFlow;

    open spec fn view(&self) -> RiderCreatedFlow {
        *self
    }
}

/// The row under which a new rider is stored, if the e-mail address gives a
/// user name: the name, and no telephone number.
pub open spec fn rider_row(created: SyncRiderCreatedView) -> Option<NewRiderView> {
    match username_of(created.email) {
        Some(username) => Some(
            NewRiderView { rider_id: created.rider_id, username, phone_number: Seq::empty() },
        ),
        None => None,
    }
}

/// The first step of the handling of a new rider.
pub open spec fn rider_created_start(created: SyncRiderCreatedView) -> StepView<
    RiderCreatedFlow,
    HandlerAnswer,
> {
    match rider_row(created) {
        None => StepView::Finish(Err(HandlerError::MalformedEmail)),
        Some(rider) => StepView::Perform(RiderCreatedFlow {  }, EffectView::CreateRider { rider }),
    }
}

/// The step of the handling of a new rider that follows a reply.
pub open spec fn rider_created_resume(flow: RiderCreatedFlow, reply: ReplyView) -> StepView<
    RiderCreatedFlow,
    HandlerAnswer,
> {
    match reply {
        ReplyView::Done | ReplyView::AlreadyExists => StepView::Finish(Ok(())),
        _ => StepView::Finish(Err(HandlerError::StoreUnavailable)),
    }
}

/// Takes up a new rider: gives up on an e-mail address without `@`, or
/// stores the rider.
pub fn handle_rider_created(created: SyncRiderCreated) -> (step: Step<
    RiderCreatedFlow,
    HandlerAnswer,
>)
    ensures
        step.view_as(|a: HandlerAnswer| a) == rider_created_start(created@),
{
    match username_from_email(created.email.as_str()) {
        None => Step::Finish(Err(HandlerError::MalformedEmail)),
        Some(username) => {
            let rider = NewRider {
                rider_id: created.rider_id,
                username,
                phone_number: String::new(),
            };
            Step::Perform(RiderCreatedFlow {  }, Effect::CreateRider { rider })
        },
    }
}

impl RiderCreatedFlow {
    /// Goes on with a new rider after the store's reply: a rider that was
    /// there already counts as stored.
    pub fn resume(self, reply: Reply) -> (step: Step<RiderCreatedFlow, HandlerAnswer>)
        ensures
            step.view_as(|a: HandlerAnswer| a) == rider_created_resume(self@, reply@),
    {
        match reply {
            Reply::Done | Reply::AlreadyExists => Step::Finish(Ok(())),
            _ => Step::Finish(Err(HandlerError::StoreUnavailable)),
        }
    }
}

/// A placed order handled to the end against the model of the world: the
/// world that is left, and the answer.
pub open spec fn order_placed_run(
    world: World,
    event: OrderPlacedEventView,
    code: int,
    now: Timestamp,
) -> (World, Option<HandlerAnswer>) {
    drive(
        world,
        order_placed_start(event),
        |f: OrderPlacedFlowView, r: ReplyView| order_placed_resume(f, r, code, now),
        4,
    )
}

/// Whether a published message tells that the riders of an order were
/// notified.
pub open spec fn tells_of(published: Published, order_id: Seq<char>) -> bool {
    published.routing_key == RIDER_NOTIFIED_KEY@ && match published.message {
        BusMessageView::RiderNotified { order_id: told, .. } => told == order_id,
        _ => false,
    }
}

/// The orders of which a list of published messages says that their riders
/// were notified.
pub open spec fn notified_orders(published: Seq<Published>) -> Set<Seq<char>> {
    Set::new(
        |order_id: Seq<char>|
            exists|i: int| 0 <= i < published.len() && tells_of(#[trigger] published[i], order_id),
    )
}

/// What the handling of a placed order does to the world.
///
/// An order of which both addresses lie in known districts is handled with
/// success. Afterwards the cache holds `RIDER_UNACCEPT` for the order; the
/// store holds a delivery row for it, a new one with the pickup code and both
/// locations unless it held one before; each of the nearest riders has been
/// sent a notice with the pickup code; and one `rider.notified.event` has been
/// published for the order.
pub proof fn law_order_placed_effects(
    world: World,
    event: OrderPlacedEventView,
    code: int,
    now: Timestamp,
)
    requires
        MIN_PICKUP_CODE <= code <= MAX_PICKUP_CODE,
        event.order is Some,
        prepared_for(event.order->Some_0, code) matches Ok((_, info)) && info.pickup_location is Some
            && info.drop_off_location is Some,
    ensures
        ({
            let order = event.order->Some_0;
            let (riders, info) = prepared_for(order, code)->Ok_0;
            let (after, answer) = order_placed_run(world, event, code, now);
            &&& answer == Some(Ok::<(), HandlerError>(()))
            &&& after.statuses == world.statuses.insert(
                order.order_id,
                DeliveryStatus::RiderUnaccept.name(),
            )
            &&& after.deliveries == if world.deliveries.contains_key(order.order_id) {
                world.deliveries
            } else {
                world.deliveries.insert(
                    order.order_id,
                    StoredDelivery {
                        created: NewDeliveryView {
                            order_id: order.order_id,
                            pickup_code: info.pickup_code,
                            pickup_location: db_point(info.pickup_location->Some_0),
                            drop_off_location: db_point(info.drop_off_location->Some_0),
                            create_time: now,
                        },
                        rider_id: None,
                        column: crate::models::DbDeliveryStatus::Unaccept,
                    },
                )
            }
            &&& after.notices == world.notices + notices_for(riders, info.pickup_code)
            &&& after.published == world.published.push(
                Published {
                    routing_key: RIDER_NOTIFIED_KEY@,
                    message: notified_event(order.order_id, now),
                },
            )
            &&& after.riders == world.riders
        }),
{
    reveal_with_fuel(drive, 5);
}

/// Handling a placed order is idempotent under redelivery.
///
/// When an event has been handled with success and is handled again, with
/// whatever pickup code and at whatever moment, the second handling succeeds
/// too; the store holds the same rows as after the first, so one delivery row
/// for the order; the cache holds the same statuses, so one status for the
/// order, `RIDER_UNACCEPT`; and one more `rider.notified.event` has been
/// published for the order, so that the orders told of are the same as after
/// the first handling.
pub proof fn law_order_placed_is_idempotent(
    world: World,
    event: OrderPlacedEventView,
    first_code: int,
    first_time: Timestamp,
    second_code: int,
    second_time: Timestamp,
)
    requires
        MIN_PICKUP_CODE <= first_code <= MAX_PICKUP_CODE,
        MIN_PICKUP_CODE <= second_code <= MAX_PICKUP_CODE,
        order_placed_run(world, event, first_code, first_time).1 == Some(
            Ok::<(), HandlerError>(()),
        ),
    ensures
        ({
            let order_id = event.order->Some_0.order_id;
            let once = order_placed_run(world, event, first_code, first_time).0;
            let (twice, answer) = order_placed_run(once, event, second_code, second_time);
            &&& event.order is Some
            &&& answer == Some(Ok::<(), HandlerError>(()))
            &&& twice.deliveries == once.deliveries
            &&& once.deliveries.contains_key(order_id)
            &&& twice.statuses == once.statuses
            &&& once.statuses.contains_key(order_id)
            &&& once.statuses[order_id] == DeliveryStatus::RiderUnaccept.name()
            &&& twice.published == once.published.push(
                Published {
                    routing_key: RIDER_NOTIFIED_KEY@,
                    message: notified_event(order_id, second_time),
                },
            )
            &&& notified_orders(once.published).contains(order_id)
            &&& notified_orders(twice.published) == notified_orders(once.published)
        }),
{
    reveal_with_fuel(drive, 5);
    let order = event.order->Some_0;
    let order_id = order.order_id;
    let once = order_placed_run(world, event, first_code, first_time).0;
    let twice = order_placed_run(once, event, second_code, second_time).0;
    assert(once.statuses.insert(order_id, DeliveryStatus::RiderUnaccept.name())
        =~= once.statuses);
    let told = Published {
        routing_key: RIDER_NOTIFIED_KEY@,
        message: notified_event(order_id, first_time),
    };
    assert(once.published == world.published.push(told));
    assert(once.published[once.published.len() - 1] == told);
    assert(tells_of(once.published[once.published.len() - 1], order_id));
    assert(notified_orders(once.published).contains(order_id));
    assert(twice.published[twice.published.len() - 1].message == notified_event(
        order_id,
        second_time,
    ));
    assert forall|id: Seq<char>|
        notified_orders(twice.published).contains(id) <==> notified_orders(
            once.published,
        ).contains(id) by {
        if notified_orders(twice.published).contains(id) {
            let i = choose|i: int|
                0 <= i < twice.published.len() && tells_of(#[trigger] twice.published[i], id);
            if i < once.published.len() {
                assert(once.published[i] == twice.published[i]);
            } else {
                assert(id == order_id);
            }
        }
        if notified_orders(once.published).contains(id) {
            let i = choose|i: int|
                0 <= i < once.published.len() && tells_of(#[trigger] once.published[i], id);
            assert(twice.published[i] == once.published[i]);
        }
    }
    assert(notified_orders(twice.published) =~= notified_orders(once.published));
}

/// The handling of a placed order keeps the store and the cache in
/// agreement, however it ends: no delivery row is stored before the cache
/// holds the status of its order, and none without a pickup code.
pub proof fn law_order_placed_keeps_agreement(
    world: World,
    event: OrderPlacedEventView,
    code: int,
    now: Timestamp,
)
    requires
        MIN_PICKUP_CODE <= code <= MAX_PICKUP_CODE,
        world.consistent(),
    ensures
        order_placed_run(world, event, code, now).0.consistent(),
        order_placed_run(world, event, code, now).1 is Some,
{
    reveal_with_fuel(drive, 5);
    law_name_round_trip(DeliveryStatus::RiderUnaccept);
    let after = order_placed_run(world, event, code, now).0;
    assert(is_pickup_code(code_text(code)));
    assert forall|order_id: Seq<char>| #[trigger]
        after.deliveries.contains_key(order_id) implies {
        &&& after.deliveries[order_id].created.order_id == order_id
        &&& is_pickup_code(after.deliveries[order_id].created.pickup_code)
        &&& after.statuses.contains_key(order_id)
        &&& DeliveryStatus::parse(after.statuses[order_id]) is Some
    } by {
        if world.deliveries.contains_key(order_id) {
            assert(world.statuses.contains_key(order_id));
        }
    }
}

/// A new rider handled to the end against the model of the world.
pub open spec fn rider_created_run(world: World, created: SyncRiderCreatedView) -> (
    World,
    Option<HandlerAnswer>,
) {
    drive(
        world,
        rider_created_start(created),
        |f: RiderCreatedFlow, r: ReplyView| rider_created_resume(f, r),
        1,
    )
}

/// A new rider is stored once, and the replay of the event changes nothing.
///
/// The handling of a rider whose e-mail address holds an `@` succeeds. If the
/// store held no rider of that id, it holds one afterwards, under the user
/// name of the address and without a telephone number, and is otherwise as it
/// was; if it held one, nothing changes. Handling the same event again
/// succeeds and leaves the world as it is.
pub proof fn law_rider_created_replay_is_no_op(world: World, created: SyncRiderCreatedView)
    requires
        username_of(created.email) is Some,
    ensures
        ({
            let (once, answer) = rider_created_run(world, created);
            &&& answer == Some(Ok::<(), HandlerError>(()))
            &&& once == if world.riders.contains_key(created.rider_id) {
                world
            } else {
                World {
                    riders: world.riders.insert(
                        created.rider_id,
                        DbRiderView {
                            id: created.rider_id,
                            username: username_of(created.email)->Some_0,
                            phone_number: Seq::empty(),
                        },
                    ),
                    ..world
                }
            }
            &&& rider_created_run(once, created) == (once, Some(Ok::<(), HandlerError>(())))
        }),
{
    reveal_with_fuel(drive, 2);
}

} // verus!
