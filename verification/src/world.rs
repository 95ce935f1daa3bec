//! A model of the world around the handlers: the status cache, the store,
//! the directories and the broker as mathematical values, and a runtime that
//! never fails to perform an effect.
//!
//! The model gives the laws of the service a meaning: what a handler does to
//! the world when it is run to its end, and what it does when it is run again.

use crate::delivery::{is_pickup_code, RiderNoticeView};
use crate::effects::{Directory, EffectView, ReplyView, StepView};
use crate::geo::{Distance, Point};
use crate::messages::{AddressView, BusMessageView, TrackingRiderResponse};
use crate::models::{DbDeliveryStatus, DbDeliveryView, DbRiderView, DbTimestamp, NewDeliveryView};
use crate::status::DeliveryStatus;
use vstd::prelude::*;

verus! {

/// A delivery row as the store keeps it: what it was created with, the rider
/// who accepted it and the status column.
pub struct StoredDelivery {
    pub created: NewDeliveryView,
    pub rider_id: Option<Seq<char>>,
    pub column: DbDeliveryStatus,
}

/// A message that the broker has confirmed.
pub struct Published {
    pub routing_key: Seq<char>,
    pub message: BusMessageView,
}

/// A queue bound to a routing key, from which the service consumes.
pub struct Subscription {
    pub queue: Seq<char>,
    pub routing_key: Seq<char>,
}

/// The world around the handlers.
pub struct World {
    /// The status cache: for each order that has been seen, the name of its
    /// status.
    pub statuses: Map<Seq<char>, Seq<char>>,
    /// The delivery rows of the store, by order id.
    pub deliveries: Map<Seq<char>, StoredDelivery>,
    /// The rider rows of the store, by rider id.
    pub riders: Map<Seq<char>, DbRiderView>,
    /// The customers that the customer directory knows, with their addresses.
    pub customers: Map<Seq<char>, Seq<AddressView>>,
    /// The merchants that the merchant directory knows, with their address.
    pub merchants: Map<Seq<char>, Option<AddressView>>,
    /// The distance that is measured between two points.
    pub distances: spec_fn(Point, Point) -> Distance,
    /// For each directory service, how many more attempts to connect to it
    /// will fail.
    pub outages: Map<Directory, nat>,
    /// The connections to directory services opened so far, oldest first.
    pub connected: Seq<Directory>,
    /// The seconds spent waiting so far.
    pub waited: int,
    /// The subscriptions opened so far, oldest first.
    pub subscriptions: Seq<Subscription>,
    /// The messages published so far, oldest first.
    pub published: Seq<Published>,
    /// The notices sent to riders so far, oldest first.
    pub notices: Seq<RiderNoticeView>,
    /// The responses put on the tracking stream so far, oldest first.
    pub tracking: Seq<TrackingRiderResponse>,
}

impl World {
    /// Whether the store and the cache agree with each other: every delivery
    /// row is kept under the id of its order and holds a pickup code, and the
    /// cache holds a status for the order of every delivery row.
    pub open spec fn consistent(self) -> bool {
        forall|order_id: Seq<char>| #[trigger]
            self.deliveries.contains_key(order_id) ==> {
                &&& self.deliveries[order_id].created.order_id == order_id
                &&& is_pickup_code(self.deliveries[order_id].created.pickup_code)
                &&& self.statuses.contains_key(order_id)
                &&& DeliveryStatus::parse(self.statuses[order_id]) is Some
            }
    }

    /// The delivery row of an order as a reader gets it: joined with the row
    /// of its rider, where it has one.
    pub open spec fn delivery(self, order_id: Seq<char>) -> DbDeliveryView
        recommends
            self.deliveries.contains_key(order_id),
    {
        let stored = self.deliveries[order_id];
        DbDeliveryView {
            order_id: stored.created.order_id,
            rider: match stored.rider_id {
                Some(rider_id) => if self.riders.contains_key(rider_id) {
                    Some(self.riders[rider_id])
                } else {
                    None
                },
                None => None,
            },
            pickup_code: stored.created.pickup_code,
            pickup_location: stored.created.pickup_location,
            drop_off_location: stored.created.drop_off_location,
            status: stored.column,
            timestamp: DbTimestamp {
                create_time: stored.created.create_time,
                accept_time: None,
                deliver_time: None,
            },
        }
    }

    /// The world after an effect, and the reply to it.
    pub open spec fn perform(self, effect: EffectView) -> (World, ReplyView) {
        match effect {
            EffectView::SetStatus { order_id, status } => (
                World { statuses: self.statuses.insert(order_id, status.name()), ..self },
                ReplyView::Done,
            ),
            EffectView::GetStatus { order_id } => if self.statuses.contains_key(order_id) {
                (self, ReplyView::StatusName(self.statuses[order_id]))
            } else {
                (self, ReplyView::Failed)
            },
            EffectView::CreateDelivery { delivery } => if self.deliveries.contains_key(
                delivery.order_id,
            ) {
                (self, ReplyView::AlreadyExists)
            } else {
                (
                    World {
                        deliveries: self.deliveries.insert(
                            delivery.order_id,
                            StoredDelivery {
                                created: delivery,
                                rider_id: None,
                                column: DbDeliveryStatus::Unaccept,
                            },
                        ),
                        ..self
                    },
                    ReplyView::Done,
                )
            },
            EffectView::CreateRider { rider } => if self.riders.contains_key(rider.rider_id) {
                (self, ReplyView::AlreadyExists)
            } else {
                (
                    World {
                        riders: self.riders.insert(
                            rider.rider_id,
                            DbRiderView {
                                id: rider.rider_id,
                                username: rider.username,
                                phone_number: rider.phone_number,
                            },
                        ),
                        ..self
                    },
                    ReplyView::Done,
                )
            },
            EffectView::GetDelivery { order_id } => if self.deliveries.contains_key(order_id) {
                (self, ReplyView::Delivery(self.delivery(order_id)))
            } else {
                (self, ReplyView::Failed)
            },
            EffectView::GetRider { rider_id } => if self.riders.contains_key(rider_id) {
                (self, ReplyView::Rider(self.riders[rider_id]))
            } else {
                (self, ReplyView::Failed)
            },
            EffectView::UpdateDeliveryRider { order_id, rider_id } => if self.deliveries.contains_key(
                order_id,
            ) {
                (
                    World {
                        deliveries: self.deliveries.insert(
                            order_id,
                            StoredDelivery { rider_id: Some(rider_id), ..self.deliveries[order_id] },
                        ),
                        ..self
                    },
                    ReplyView::Done,
                )
            } else {
                (self, ReplyView::Done)
            },
            EffectView::UpdateDeliveryStatus { order_id, column } => if self.deliveries.contains_key(
                order_id,
            ) {
                (
                    World {
                        deliveries: self.deliveries.insert(
                            order_id,
                            StoredDelivery { column, ..self.deliveries[order_id] },
                        ),
                        ..self
                    },
                    ReplyView::Done,
                )
            } else {
                (self, ReplyView::Done)
            },
            EffectView::NotifyRiders { notices } => (
                World { notices: self.notices + notices, ..self },
                ReplyView::Done,
            ),
            EffectView::Publish { routing_key, message } => (
                World { published: self.published.push(Published { routing_key, message }), ..self },
                ReplyView::Done,
            ),
            EffectView::Subscribe { queue, routing_key } => (
                World {
                    subscriptions: self.subscriptions.push(Subscription { queue, routing_key }),
                    ..self
                },
                ReplyView::Done,
            ),
            EffectView::GetCustomer { customer_id } => if self.customers.contains_key(customer_id) {
                (self, ReplyView::Customer { addresses: self.customers[customer_id] })
            } else {
                (self, ReplyView::Failed)
            },
            EffectView::GetMerchant { merchant_id } => if self.merchants.contains_key(merchant_id) {
                (self, ReplyView::Merchant { address: self.merchants[merchant_id] })
            } else {
                (self, ReplyView::Failed)
            },
            EffectView::MeasureDistance { from, to } => (
                self,
                ReplyView::Measured((self.distances)(from, to)),
            ),
            EffectView::Connect { directory } => if self.outages.contains_key(directory)
                && self.outages[directory] > 0 {
                (
                    World {
                        outages: self.outages.insert(
                            directory,
                            (self.outages[directory] - 1) as nat,
                        ),
                        ..self
                    },
                    ReplyView::Failed,
                )
            } else {
                (World { connected: self.connected.push(directory), ..self }, ReplyView::Done)
            },
            EffectView::Sleep { seconds } => (
                World { waited: self.waited + seconds, ..self },
                ReplyView::Done,
            ),
            EffectView::SendTracking { response } => (
                World { tracking: self.tracking.push(response), ..self },
                ReplyView::Done,
            ),
        }
    }
}

/// Runs a handler from a step on, for at most `fuel` effects: performs the
/// effect that the step names, resumes the handler with the reply, and so on
/// until the handler finishes. Gives the world that is left and the answer,
/// if the handler finished.
pub open spec fn drive<F, V>(
    world: World,
    step: StepView<F, V>,
    resume: spec_fn(F, ReplyView) -> StepView<F, V>,
    fuel: nat,
) -> (World, Option<V>)
    decreases fuel,
{
    match step {
        StepView::Finish(answer) => (world, Some(answer)),
        StepView::Perform(flow, effect) => if fuel == 0 {
            (world, None)
        } else {
            let (after, reply) = world.perform(effect);
            drive(after, resume(flow, reply), resume, (fuel - 1) as nat)
        },
    }
}

} // verus!
