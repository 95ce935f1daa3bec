//! The effects that a handler asks its runtime to perform, and the replies
//! that the runtime hands back.
//!
//! A handler never touches the broker, the status cache, the store or a
//! directory service. It is a step function: given the reply to the effect it
//! asked for last, it names the next effect or finishes with an answer. The
//! runtime performs each effect and resumes the handler with the reply.

use crate::delivery::{notice_views, RiderNotice, RiderNoticeView};
use crate::geo::{Distance, Point};
use crate::messages::{Address, AddressView, BusMessage, BusMessageView, TrackingRiderResponse};
use crate::models::{
    DbDelivery, DbDeliveryStatus, DbDeliveryView, DbRider, DbRiderView, NewDelivery,
    NewDeliveryView, NewRider, NewRiderView,
};
use crate::rpc::{Status, StatusView};
use crate::status::DeliveryStatus;
use vstd::prelude::*;

verus! {

/// The directory services that the service reads from.
#[derive(Clone, Copy, Debug, PartialEq, Eq, Structural)]
pub enum Directory {
    Customer,
    Merchant,
}

/// Something for the runtime to do.
#[derive(Clone, Debug, PartialEq, Eq)]
pub enum Effect {
    /// Write the status of an order to the status cache.
    SetStatus { order_id: String, status: DeliveryStatus },
    /// Read the status of an order from the status cache.
    GetStatus { order_id: String },
    /// Insert a delivery row; order ids are unique.
    CreateDelivery { delivery: NewDelivery },
    /// Insert a rider row; rider ids are unique.
    CreateRider { rider: NewRider },
    /// Read a delivery row.
    GetDelivery { order_id: String },
    /// Read a rider row.
    GetRider { rider_id: String },
    /// Set the rider of a delivery row.
    UpdateDeliveryRider { order_id: String, rider_id: String },
    /// Set the status column of a delivery row.
    UpdateDeliveryStatus { order_id: String, column: DbDeliveryStatus },
    /// Tell riders of an order, without waiting for them.
    NotifyRiders { notices: Vec<RiderNotice> },
    /// Publish a message and wait for the broker to confirm it.
    Publish { routing_key: String, message: BusMessage },
    /// Bind a queue to a routing key and start to consume from it.
    Subscribe { queue: String, routing_key: String },
    /// Ask the customer directory for a customer.
    GetCustomer { customer_id: String },
    /// Ask the merchant directory for a merchant.
    GetMerchant { merchant_id: String },
    /// Measure the great-circle distance between two points.
    MeasureDistance { from: Point, to: Point },
    /// Open the connection to a directory service.
    Connect { directory: Directory },
    /// Wait.
    Sleep { seconds: u64 },
    /// Put a response on the stream to the caller.
    SendTracking { response: TrackingRiderResponse },
}

/// An `Effect` as a mathematical value.
pub enum EffectView {
    SetStatus { order_id: Seq<char>, status: DeliveryStatus },
    GetStatus { order_id: Seq<char> },
    CreateDelivery { delivery: NewDeliveryView },
    CreateRider { rider: NewRiderView },
    GetDelivery { order_id: Seq<char> },
    GetRider { rider_id: Seq<char> },
    UpdateDeliveryRider { order_id: Seq<char>, rider_id: Seq<char> },
    UpdateDeliveryStatus { order_id: Seq<char>, column: DbDeliveryStatus },
    NotifyRiders { notices: Seq<RiderNoticeView> },
    Publish { routing_key: Seq<char>, message: BusMessageView },
    Subscribe { queue: Seq<char>, routing_key: Seq<char> },
    GetCustomer { customer_id: Seq<char> },
    GetMerchant { merchant_id: Seq<char> },
    MeasureDistance { from: Point, to: Point },
    Connect { directory: Directory },
    Sleep { seconds: u64 },
    SendTracking { response: TrackingRiderResponse },
}

impl View for Effect {
    type V = EffectView;

    open spec fn view(&self) -> EffectView {
        match self {
            Effect::SetStatus { order_id, status } => EffectView::SetStatus {
                order_id: order_id@,
                status: *status,
            },
            Effect::GetStatus { order_id } => EffectView::GetStatus { order_id: order_id@ },
            Effect::CreateDelivery { delivery } => EffectView::CreateDelivery {
                delivery: delivery@,
            },
            Effect::CreateRider { rider } => EffectView::CreateRider { rider: rider@ },
            Effect::GetDelivery { order_id } => EffectView::GetDelivery { order_id: order_id@ },
            Effect::GetRider { rider_id } => EffectView::GetRider { rider_id: rider_id@ },
            Effect::UpdateDeliveryRider { order_id, rider_id } => EffectView::UpdateDeliveryRider {
                order_id: order_id@,
                rider_id: rider_id@,
            },
            Effect::UpdateDeliveryStatus { order_id, column } => EffectView::UpdateDeliveryStatus {
                order_id: order_id@,
                column: *column,
            },
            Effect::NotifyRiders { notices } => EffectView::NotifyRiders {
                notices: notice_views(notices@),
            },
            Effect::Publish { routing_key, message } => EffectView::Publish {
                routing_key: routing_key@,
                message: message@,
            },
            Effect::Subscribe { queue, routing_key } => EffectView::Subscribe {
                queue: queue@,
                routing_key: routing_key@,
            },
            Effect::GetCustomer { customer_id } => EffectView::GetCustomer {
                customer_id: customer_id@,
            },
            Effect::GetMerchant { merchant_id } => EffectView::GetMerchant {
                merchant_id: merchant_id@,
            },
            Effect::MeasureDistance { from, to } => EffectView::MeasureDistance {
                from: *from,
                to: *to,
            },
            Effect::Connect { directory } => EffectView::Connect { directory: *directory },
            Effect::Sleep { seconds } => EffectView::Sleep { seconds: *seconds },
            Effect::SendTracking { response } => EffectView::SendTracking { response: *response },
        }
    }
}

/// What came of an effect.
#[derive(Clone, Debug, PartialEq, Eq)]
pub enum Reply {
    /// The effect was performed.
    Done,
    /// The effect could not be performed.
    Failed,
    /// The row to insert was there already.
    AlreadyExists,
    /// A directory service refused the request.
    Refused(Status),
    /// The status that the cache holds for the order.
    StatusName(String),
    /// The delivery row asked for.
    Delivery(DbDelivery),
    /// The rider row asked for.
    Rider(DbRider),
    /// The addresses of the customer asked for.
    Customer { addresses: Vec<Address> },
    /// The address of the merchant asked for.
    Merchant { address: Option<Address> },
    /// The distance measured.
    Measured(Distance),
}

/// A `Reply` as a mathematical value.
pub enum ReplyView {
    Done,
    Failed,
    AlreadyExists,
    Refused(StatusView),
    StatusName(Seq<char>),
    Delivery(DbDeliveryView),
    Rider(DbRiderView),
    Customer { addresses: Seq<AddressView> },
    Merchant { address: Option<AddressView> },
    Measured(Distance),
}

/// The views of a list of addresses.
pub open spec fn address_views(addresses: Seq<Address>) -> Seq<AddressView> {
    Seq::new(addresses.len(), |i: int| addresses[i]@)
}

impl View for Reply {
    type V = ReplyView;

    open spec fn view(&self) -> ReplyView {
        match self {
            Reply::Done => ReplyView::Done,
            Reply::Failed => ReplyView::Failed,
            Reply::AlreadyExists => ReplyView::AlreadyExists,
            Reply::Refused(status) => ReplyView::Refused(status@),
            Reply::StatusName(name) => ReplyView::StatusName(name@),
            Reply::Delivery(delivery) => ReplyView::Delivery(delivery@),
            Reply::Rider(rider) => ReplyView::Rider(rider@),
            Reply::Customer { addresses } => ReplyView::Customer {
                addresses: address_views(addresses@),
            },
            Reply::Merchant { address } => ReplyView::Merchant {
                address: crate::messages::address_view(*address),
            },
            Reply::Measured(distance) => ReplyView::Measured(*distance),
        }
    }
}

/// What a handler wants next: an effect performed, after which it goes on
/// from the state given, or to finish with its answer.
#[derive(Clone, Debug, PartialEq, Eq)]
pub enum Step<F, T> {
    Perform(F, Effect),
    Finish(T),
}

/// A `Step` as a mathematical value.
pub enum StepView<F, V> {
    Perform(F, EffectView),
    Finish(V),
}

impl<F: View, T> Step<F, T> {
    /// The view of a step, given the view of its answer.
    pub open spec fn view_as<V>(self, answer: spec_fn(T) -> V) -> StepView<F::V, V> {
        match self {
            Step::Perform(flow, effect) => StepView::Perform(flow@, effect@),
            Step::Finish(t) => StepView::Finish(answer(t)),
        }
    }
}

} // verus!
