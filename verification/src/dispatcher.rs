//! The event dispatcher: the registry of the queues that the service consumes
//! from, the routing of a message to its handler, and what becomes of a
//! message once its handler has answered.

use crate::bus::{ORDER_PLACED_KEY, RIDER_CREATED_KEY};
use crate::delivery::{MAX_PICKUP_CODE, MIN_PICKUP_CODE};
use crate::effects::{Effect, EffectView, Reply, ReplyView, Step, StepView};
use crate::handlers::{
    handle_order_placed, handle_rider_created, order_placed_resume, order_placed_run,
    order_placed_start, rider_created_resume, rider_created_run, rider_created_start, ErrorKind,
    HandlerAnswer, OrderPlacedFlow, OrderPlacedFlowView, RiderCreatedFlow,
};
use crate::messages::{
    OrderPlacedEvent, OrderPlacedEventView, SyncRiderCreated, SyncRiderCreatedView, Timestamp,
};
use crate::outside::{current_time, random_in};
use crate::world::{drive, Subscription, World};
use vstd::prelude::*;
use vstd::string::*;

verus! {

/// How many messages the dispatcher handles at a time unless told otherwise.
pub const DEFAULT_CONCURRENCY: usize = 100;

/// A queue to consume from and the routing key that it is bound to.
#[derive(Debug, PartialEq, Eq)]
pub struct EventHandler {
    pub queue: String,
    pub key: String,
}

impl View for EventHandler {
    type V = Subscription;

    open spec fn view(&self) -> Subscription {
        Subscription { queue: self.queue@, routing_key: self.key@ }
    }
}

impl Clone for EventHandler {
    fn clone(&self) -> (copy: EventHandler)
        ensures
            copy@ == self@,
    {
        EventHandler { queue: self.queue.clone(), key: self.key.clone() }
    }
}

/// The subscriptions that a list of registrations asks for.
pub open spec fn subscriptions_of(events: Seq<EventHandler>) -> Seq<Subscription> {
    Seq::new(events.len(), |i: int| events[i]@)
}

/// The registry of the dispatcher.
#[derive(Clone, Debug, PartialEq, Eq)]
pub struct EventDispatcher {
    pub events: Vec<EventHandler>,
}

/// The handler that a routing key is bound to.
#[derive(Clone, Copy, Debug, PartialEq, Eq, Structural)]
pub enum Route {
    OrderPlaced,
    RiderCreated,
    /// No handler is bound to the key.
    Unknown,
}

/// The handler of a routing key.
pub open spec fn route_of(key: Seq<char>) -> Route {
    if key == ORDER_PLACED_KEY@ {
        Route::OrderPlaced
    } else if key == RIDER_CREATED_KEY@ {
        Route::RiderCreated
    } else {
        Route::Unknown
    }
}

/// Routes a message by its key.
pub fn route(key: &str) -> (handler: Route)
    ensures
        handler == route_of(key@),
{
    if key.eq(ORDER_PLACED_KEY) {
        Route::OrderPlaced
    } else if key.eq(RIDER_CREATED_KEY) {
        Route::RiderCreated
    } else {
        Route::Unknown
    }
}

/// A message as it comes off a queue, decoded as its key asks.
#[derive(Clone, Debug, PartialEq, Eq)]
pub enum Incoming {
    /// A message for the handler of placed orders; `None` where the payload
    /// could not be decoded.
    OrderPlaced(Option<OrderPlacedEvent>),
    /// A message for the handler of new riders; `None` where the payload
    /// could not be decoded.
    RiderCreated(Option<SyncRiderCreated>),
    /// A message under a key that no handler is bound to.
    Unrouted,
}

/// An `Incoming` as a mathematical value.
pub enum IncomingView {
    OrderPlaced(Option<OrderPlacedEventView>),
    RiderCreated(Option<SyncRiderCreatedView>),
    Unrouted,
}

impl View for Incoming {
    type V = IncomingView;

    open spec fn view(&self) -> IncomingView {
        match self {
            Incoming::OrderPlaced(Some(event)) => IncomingView::OrderPlaced(Some(event@)),
            Incoming::OrderPlaced(None) => IncomingView::OrderPlaced(None),
            Incoming::RiderCreated(Some(created)) => IncomingView::RiderCreated(Some(created@)),
            Incoming::RiderCreated(None) => IncomingView::RiderCreated(None),
            Incoming::Unrouted => IncomingView::Unrouted,
        }
    }
}

/// What becomes of a message.
#[derive(Clone, Copy, Debug, PartialEq, Eq, Structural)]
pub enum Settlement {
    /// The message is acknowledged: the broker forgets it.
    Ack,
    /// The message is left unacknowledged: the broker delivers it again.
    Leave,
}

/// What becomes of a message whose handler has answered: it is acknowledged
/// when it was handled and when it can never be handled, and left for
/// redelivery otherwise.
pub open spec fn settlement_of(answer: HandlerAnswer) -> Settlement {
    match answer {
        Ok(_) => Settlement::Ack,
        Err(e) => if e.kind_of() == ErrorKind::InvalidPayload {
            Settlement::Ack
        } else {
            Settlement::Leave
        },
    }
}

/// Settles a message by the answer of its handler.
pub fn settle(answer: HandlerAnswer) -> (settlement: Settlement)
    ensures
        settlement == settlement_of(answer),
{
    match answer {
        Ok(_) => Settlement::Ack,
        Err(e) => match e.kind() {
            ErrorKind::InvalidPayload => Settlement::Ack,
            _ => Settlement::Leave,
        },
    }
}

/// A message in the hands of its handler.
#[derive(Clone, Debug, PartialEq, Eq)]
pub enum MessageFlow {
    OrderPlaced(OrderPlacedFlow),
    RiderCreated(RiderCreatedFlow),
}

/// A `MessageFlow` as a mathematical value.
pub enum MessageFlowView {
    OrderPlaced(OrderPlacedFlowView),
    RiderCreated(RiderCreatedFlow),
}

impl View for MessageFlow {
    type V = MessageFlowView;

    open spec fn view(&self) -> MessageFlowView {
        match self {
            MessageFlow::OrderPlaced(flow) => MessageFlowView::OrderPlaced(flow@),
            MessageFlow::RiderCreated(flow) => MessageFlowView::RiderCreated(flow@),
        }
    }
}

/// The step of a message that stands for a step of the handler of placed
/// orders.
pub open spec fn on_order_placed(step: StepView<OrderPlacedFlowView, HandlerAnswer>) -> StepView<
    MessageFlowView,
    Settlement,
> {
    match step {
        StepView::Perform(flow, effect) => StepView::Perform(
            MessageFlowView::OrderPlaced(flow),
            effect,
        ),
        StepView::Finish(answer) => StepView::Finish(settlement_of(answer)),
    }
}

/// The step of a message that stands for a step of the handler of new riders.
pub open spec fn on_rider_created(step: StepView<RiderCreatedFlow, HandlerAnswer>) -> StepView<
    MessageFlowView,
    Settlement,
> {
    match step {
        StepView::Perform(flow, effect) => StepView::Perform(
            MessageFlowView::RiderCreated(flow),
            effect,
        ),
        StepView::Finish(answer) => StepView::Finish(settlement_of(answer)),
    }
}

/// The first step on a message: one that has no handler or cannot be decoded
/// is acknowledged and dropped, any other goes to its handler.
pub open spec fn receive_start(incoming: IncomingView) -> StepView<MessageFlowView, Settlement> {
    match incoming {
        IncomingView::OrderPlaced(Some(event)) => on_order_placed(order_placed_start(event)),
        IncomingView::RiderCreated(Some(created)) => on_rider_created(rider_created_start(created)),
        _ => StepView::Finish(Settlement::Ack),
    }
}

/// The step on a message that follows a reply.
pub open spec fn receive_resume(
    flow: MessageFlowView,
    reply: ReplyView,
    code: int,
    now: Timestamp,
) -> StepView<MessageFlowView, Settlement> {
    match flow {
        MessageFlowView::OrderPlaced(flow) => on_order_placed(
            order_placed_resume(flow, reply, code, now),
        ),
        MessageFlowView::RiderCreated(flow) => on_rider_created(rider_created_resume(flow, reply)),
    }
}

fn lift_order_placed(step: Step<OrderPlacedFlow, HandlerAnswer>) -> (lifted: Step<
    MessageFlow,
    Settlement,
>)
    ensures
        lifted.view_as(|s: Settlement| s) == on_order_placed(step.view_as(|a: HandlerAnswer| a)),
{
    match step {
        Step::Perform(flow, effect) => Step::Perform(MessageFlow::OrderPlaced(flow), effect),
        Step::Finish(answer) => Step::Finish(settle(answer)),
    }
}

fn lift_rider_created(step: Step<RiderCreatedFlow, HandlerAnswer>) -> (lifted: Step<
    MessageFlow,
    Settlement,
>)
    ensures
        lifted.view_as(|s: Settlement| s) == on_rider_created(step.view_as(|a: HandlerAnswer| a)),
{
    match step {
        Step::Perform(flow, effect) => Step::Perform(MessageFlow::RiderCreated(flow), effect),
        Step::Finish(answer) => Step::Finish(settle(answer)),
    }
}

/// Takes a message off a queue.
pub fn receive(incoming: Incoming) -> (step: Step<MessageFlow, Settlement>)
    ensures
        step.view_as(|s: Settlement| s) == receive_start(incoming@),
{
    match incoming {
        Incoming::OrderPlaced(Some(event)) => lift_order_placed(handle_order_placed(event)),
        Incoming::RiderCreated(Some(created)) => lift_rider_created(handle_rider_created(created)),
        _ => Step::Finish(Settlement::Ack),
    }
}

impl MessageFlow {
    /// Goes on with a message after a reply, drawing the pickup code at random
    /// and reading the clock.
    pub fn resume(self, reply: Reply) -> (step: Step<MessageFlow, Settlement>)
        ensures
            exists|code: int, now: Timestamp|
                MIN_PICKUP_CODE <= code <= MAX_PICKUP_CODE && step.view_as(|s: Settlement| s)
                    == #[trigger] receive_resume(self@, reply@, code, now),
    {
        let code: i32 = random_in(MIN_PICKUP_CODE, MAX_PICKUP_CODE);
        let now = current_time();
        let ghost before = self@;
        let ghost reply_view = reply@;
        let step = self.resume_with(reply, code, now);
        assert(step.view_as(|s: Settlement| s) == receive_resume(
            before,
            reply_view,
            code as int,
            now,
        ));
        step
    }

    /// Goes on with a message after a reply, with the pickup code and the
    /// moment given.
    pub fn resume_with(self, reply: Reply, code: i32, now: Timestamp) -> (step: Step<
        MessageFlow,
        Settlement,
    >)
        requires
            MIN_PICKUP_CODE <= code <= MAX_PICKUP_CODE,
        ensures
            step.view_as(|s: Settlement| s) == receive_resume(self@, reply@, code as int, now),
    {
        match self {
            MessageFlow::OrderPlaced(flow) => lift_order_placed(flow.resume_with(reply, code, now)),
            MessageFlow::RiderCreated(flow) => lift_rider_created(flow.resume(reply)),
        }
    }
}

/// A message handled to the end against the model of the world: the world
/// that is left, and what becomes of the message.
pub open spec fn receive_run(world: World, incoming: IncomingView, code: int, now: Timestamp) -> (
    World,
    Option<Settlement>,
) {
    drive(
        world,
        receive_start(incoming),
        |f: MessageFlowView, r: ReplyView| receive_resume(f, r, code, now),
        4,
    )
}

/// The dispatcher does to the world what the handler of the message does,
/// and settles the message by the handler's answer. A message that has no
/// handler or cannot be decoded is acknowledged and changes nothing.
pub proof fn law_message_is_settled_by_its_handler(
    world: World,
    incoming: IncomingView,
    code: int,
    now: Timestamp,
)
    ensures
        receive_run(world, incoming, code, now) == match incoming {
            IncomingView::OrderPlaced(Some(event)) => {
                let (after, answer) = order_placed_run(world, event, code, now);
                (
                    after,
                    match answer {
                        Some(a) => Some(settlement_of(a)),
                        None => None,
                    },
                )
            },
            IncomingView::RiderCreated(Some(created)) => {
                let (after, answer) = rider_created_run(world, created);
                (
                    after,
                    match answer {
                        Some(a) => Some(settlement_of(a)),
                        None => None,
                    },
                )
            },
            _ => (world, Some(Settlement::Ack)),
        },
{
    reveal_with_fuel(drive, 5);
}

/// The dispatcher while it opens its subscriptions: the registry, and how
/// many of its entries have been asked for.
#[derive(Clone, Debug, PartialEq, Eq)]
pub struct Subscribing {
    pub events: Vec<EventHandler>,
    pub asked: usize,
}

/// A `Subscribing` as a mathematical value.
pub struct SubscribingView {
    pub subscriptions: Seq<Subscription>,
    pub asked: int,
}

impl View for Subscribing {
    type V = SubscribingView;

    open spec fn view(&self) -> SubscribingView {
        SubscribingView { subscriptions: subscriptions_of(self.events@), asked: self.asked as int }
    }
}

/// The step of the dispatcher that asks for the next subscription, or
/// finishes when every entry of the registry has been asked for.
pub open spec fn subscribe_next(subscriptions: Seq<Subscription>, asked: int) -> StepView<
    SubscribingView,
    (),
> {
    if 0 <= asked < subscriptions.len() {
        StepView::Perform(
            SubscribingView { subscriptions, asked: asked + 1 },
            EffectView::Subscribe {
                queue: subscriptions[asked].queue,
                routing_key: subscriptions[asked].routing_key,
            },
        )
    } else {
        StepView::Finish(())
    }
}

/// The step of the dispatcher that follows a reply: a subscription that
/// failed is passed over, and the next one is asked for.
pub open spec fn subscribing_resume(flow: SubscribingView, reply: ReplyView) -> StepView<
    SubscribingView,
    (),
> {
    subscribe_next(flow.subscriptions, flow.asked)
}

fn subscribe_from(events: Vec<EventHandler>, asked: usize) -> (step: Step<Subscribing, ()>)
    ensures
        step.view_as(|u: ()| u) == subscribe_next(subscriptions_of(events@), asked as int),
{
    if asked < events.len() {
        let effect = Effect::Subscribe {
            queue: events[asked].queue.clone(),
            routing_key: events[asked].key.clone(),
        };
        Step::Perform(Subscribing { events, asked: asked + 1 }, effect)
    } else {
        Step::Finish(())
    }
}

impl Subscribing {
    /// Goes on to the next subscription, whatever came of the last.
    pub fn resume(self, reply: Reply) -> (step: Step<Subscribing, ()>)
        ensures
            step.view_as(|u: ()| u) == subscribing_resume(self@, reply@),
    {
        subscribe_from(self.events, self.asked)
    }
}

impl EventDispatcher {
    /// A dispatcher with an empty registry.
    pub fn new() -> (dispatcher: EventDispatcher)
        ensures
            dispatcher.events@ == Seq::<EventHandler>::empty(),
    {
        EventDispatcher { events: Vec::new() }
    }

    /// The dispatcher of the service: the handler of placed orders and the
    /// handler of new riders, each on a queue that the broker names.
    pub fn standard() -> (dispatcher: EventDispatcher)
        ensures
            subscriptions_of(dispatcher.events@) == seq![
                Subscription { queue: Seq::empty(), routing_key: ORDER_PLACED_KEY@ },
                Subscription { queue: Seq::empty(), routing_key: RIDER_CREATED_KEY@ },
            ],
    {
        let dispatcher = EventDispatcher::new().add_event(
            EventHandler { queue: String::new(), key: String::from_str(ORDER_PLACED_KEY) },
        ).add_event(
            EventHandler { queue: String::new(), key: String::from_str(RIDER_CREATED_KEY) },
        );
        assert(subscriptions_of(dispatcher.events@) =~= seq![
            Subscription { queue: Seq::empty(), routing_key: ORDER_PLACED_KEY@ },
            Subscription { queue: Seq::empty(), routing_key: RIDER_CREATED_KEY@ },
        ]);
        dispatcher
    }

    /// Adds a registration behind those that are there.
    pub fn add_event(self, event: EventHandler) -> (dispatcher: EventDispatcher)
        ensures
            dispatcher.events@ == self.events@.push(event),
    {
        let mut events = self.events;
        events.push(event);
        EventDispatcher { events }
    }

    /// Starts the dispatcher: asks for the subscription of every registration,
    /// in the order of the registry.
    pub fn run(self) -> (step: Step<Subscribing, ()>)
        ensures
            step.view_as(|u: ()| u) == subscribe_next(subscriptions_of(self.events@), 0),
    {
        subscribe_from(self.events, 0)
    }
}

/// The dispatcher run to its end against the model of the world, from the
/// point where `asked` subscriptions have been asked for.
pub open spec fn subscribing_run(world: World, subscriptions: Seq<Subscription>, asked: int) -> (
    World,
    Option<()>,
)
    recommends
        0 <= asked <= subscriptions.len(),
{
    drive(
        world,
        subscribe_next(subscriptions, asked),
        |f: SubscribingView, r: ReplyView| subscribing_resume(f, r),
        (subscriptions.len() - asked) as nat,
    )
}

/// The dispatcher opens one subscription for each registration, in the order
/// of the registry, and touches nothing else.
pub proof fn law_run_subscribes_to_every_registration(
    world: World,
    subscriptions: Seq<Subscription>,
    asked: int,
)
    requires
        0 <= asked <= subscriptions.len(),
    ensures
        subscribing_run(world, subscriptions, asked) == (
            World {
                subscriptions: world.subscriptions + subscriptions.subrange(
                    asked,
                    subscriptions.len() as int,
                ),
                ..world
            },
            Some(()),
        ),
    decreases subscriptions.len() - asked,
{
    let rest = subscriptions.subrange(asked, subscriptions.len() as int);
    if asked == subscriptions.len() {
        assert(world.subscriptions + rest =~= world.subscriptions);
    } else {
        let next = world.perform(
            EffectView::Subscribe {
                queue: subscriptions[asked].queue,
                routing_key: subscriptions[asked].routing_key,
            },
        ).0;
        law_run_subscribes_to_every_registration(next, subscriptions, asked + 1);
        assert(next.subscriptions + subscriptions.subrange(
            asked + 1,
            subscriptions.len() as int,
        ) =~= world.subscriptions + rest);
    }
}

} // verus!
