//! The messages that the service exchanges with its callers, with the broker
//! and with the directory services, as plain values.

use crate::geo::Point;
use crate::status::DeliveryStatus;
use vstd::prelude::*;

verus! {

/// A moment in time: seconds since the Unix epoch and nanoseconds within the
/// second.
#[derive(Clone, Copy, Debug, PartialEq, Eq, Structural)]
pub struct Timestamp {
    pub seconds: i64,
    pub nanos: i32,
}

/// A postal address as the directory services hold it.
#[derive(Debug, PartialEq, Eq)]
pub struct Address {
    pub address_id: String,
    pub district: String,
    pub street: String,
    pub building: String,
}

/// An `Address` as a mathematical value.
pub struct AddressView {
    pub address_id: Seq<char>,
    pub district: Seq<char>,
    pub street: Seq<char>,
    pub building: Seq<char>,
}

impl View for Address {
    type V = AddressView;

    open spec fn view(&self) -> AddressView {
        AddressView {
            address_id: self.address_id@,
            district: self.district@,
            street: self.street@,
            building: self.building@,
        }
    }
}

impl Clone for Address {
    fn clone(&self) -> (copy: Address)
        ensures
            copy@ == self@,
    {
        Address {
            address_id: self.address_id.clone(),
            district: self.district.clone(),
            street: self.street.clone(),
            building: self.building.clone(),
        }
    }
}

/// The view of an address that may be absent.
pub open spec fn address_view(address: Option<Address>) -> Option<AddressView> {
    match address {
        Some(a) => Some(a@),
        None => None,
    }
}

/// An order as it is announced when it is placed.
#[derive(Clone, Debug, PartialEq, Eq)]
pub struct PlaceOrder {
    pub order_id: String,
    pub merchant_address: Option<Address>,
    pub customer_address: Option<Address>,
}

/// A `PlaceOrder` as a mathematical value.
pub struct PlaceOrderView {
    pub order_id: Seq<char>,
    pub merchant_address: Option<AddressView>,
    pub customer_address: Option<AddressView>,
}

impl View for PlaceOrder {
    type V = PlaceOrderView;

    open spec fn view(&self) -> PlaceOrderView {
        PlaceOrderView {
            order_id: self.order_id@,
            merchant_address: address_view(self.merchant_address),
            customer_address: address_view(self.customer_address),
        }
    }
}

/// The payload of `order.placed.event`.
#[derive(Clone, Debug, PartialEq, Eq)]
pub struct OrderPlacedEvent {
    pub order: Option<PlaceOrder>,
}

/// An `OrderPlacedEvent` as a mathematical value.
pub struct OrderPlacedEventView {
    pub order: Option<PlaceOrderView>,
}

impl View for OrderPlacedEvent {
    type V = OrderPlacedEventView;

    open spec fn view(&self) -> OrderPlacedEventView {
        OrderPlacedEventView {
            order: match self.order {
                Some(order) => Some(order@),
                None => None,
            },
        }
    }
}

/// The payload of `sync.rider.created`.
#[derive(Clone, Debug, PartialEq, Eq)]
pub struct SyncRiderCreated {
    pub rider_id: String,
    pub email: String,
}

/// A `SyncRiderCreated` as a mathematical value.
pub struct SyncRiderCreatedView {
    pub rider_id: Seq<char>,
    pub email: Seq<char>,
}

impl View for SyncRiderCreated {
    type V = SyncRiderCreatedView;

    open spec fn view(&self) -> SyncRiderCreatedView {
        SyncRiderCreatedView { rider_id: self.rider_id@, email: self.email@ }
    }
}

/// The payload of `rider.notified.event`.
#[derive(Clone, Debug, PartialEq, Eq)]
pub struct RiderNotifiedEvent {
    pub order_id: String,
    pub notify_time: Option<Timestamp>,
}

/// The payload of `rider.assigned.event`.
#[derive(Clone, Debug, PartialEq, Eq)]
pub struct RiderAssignedEvent {
    pub order_id: String,
    pub rider_id: String,
    pub assign_time: Option<Timestamp>,
}

/// A message on its way to the broker.
#[derive(Clone, Debug, PartialEq, Eq)]
pub enum BusMessage {
    RiderNotified(RiderNotifiedEvent),
    RiderAssigned(RiderAssignedEvent),
}

/// A `BusMessage` as a mathematical value.
pub enum BusMessageView {
    RiderNotified { order_id: Seq<char>, notify_time: Option<Timestamp> },
    RiderAssigned { order_id: Seq<char>, rider_id: Seq<char>, assign_time: Option<Timestamp> },
}

impl View for BusMessage {
    type V = BusMessageView;

    open spec fn view(&self) -> BusMessageView {
        match self {
            BusMessage::RiderNotified(e) => BusMessageView::RiderNotified {
                order_id: e.order_id@,
                notify_time: e.notify_time,
            },
            BusMessage::RiderAssigned(e) => BusMessageView::RiderAssigned {
                order_id: e.order_id@,
                rider_id: e.rider_id@,
                assign_time: e.assign_time,
            },
        }
    }
}

/// A rider as callers see one.
#[derive(Clone, Debug, PartialEq, Eq)]
pub struct Rider {
    pub rider_id: String,
    pub username: String,
    pub phone_number: String,
}

/// A `Rider` as a mathematical value.
pub struct RiderView {
    pub rider_id: Seq<char>,
    pub username: Seq<char>,
    pub phone_number: Seq<char>,
}

impl View for Rider {
    type V = RiderView;

    open spec fn view(&self) -> RiderView {
        RiderView {
            rider_id: self.rider_id@,
            username: self.username@,
            phone_number: self.phone_number@,
        }
    }
}

impl RiderView {
    /// The rider of which nothing is known: every field empty.
    pub open spec fn blank() -> RiderView {
        RiderView { rider_id: Seq::empty(), username: Seq::empty(), phone_number: Seq::empty() }
    }
}

impl Default for Rider {
    fn default() -> (rider: Rider)
        ensures
            rider@ == RiderView::blank(),
    {
        Rider { rider_id: String::new(), username: String::new(), phone_number: String::new() }
    }
}

/// What a rider needs in order to collect an order.
#[derive(Clone, Debug, PartialEq, Eq)]
pub struct PickupInfo {
    pub pickup_code: String,
    pub pickup_location: Option<Point>,
    pub drop_off_location: Option<Point>,
}

/// A `PickupInfo` as a mathematical value.
pub struct PickupInfoView {
    pub pickup_code: Seq<char>,
    pub pickup_location: Option<Point>,
    pub drop_off_location: Option<Point>,
}

impl View for PickupInfo {
    type V = PickupInfoView;

    open spec fn view(&self) -> PickupInfoView {
        PickupInfoView {
            pickup_code: self.pickup_code@,
            pickup_location: self.pickup_location,
            drop_off_location: self.drop_off_location,
        }
    }
}

/// The request of `GetDeliveryFee`.
#[derive(Clone, Debug, PartialEq, Eq)]
pub struct GetDeliveryFeeRequest {
    pub customer_id: String,
    pub customer_address_id: String,
    pub merchant_id: String,
}

/// A `GetDeliveryFeeRequest` as a mathematical value.
pub struct GetDeliveryFeeRequestView {
    pub customer_id: Seq<char>,
    pub customer_address_id: Seq<char>,
    pub merchant_id: Seq<char>,
}

impl View for GetDeliveryFeeRequest {
    type V = GetDeliveryFeeRequestView;

    open spec fn view(&self) -> GetDeliveryFeeRequestView {
        GetDeliveryFeeRequestView {
            customer_id: self.customer_id@,
            customer_address_id: self.customer_address_id@,
            merchant_id: self.merchant_id@,
        }
    }
}

/// The answer of `GetDeliveryFee`.
#[derive(Clone, Copy, Debug, PartialEq, Eq, Structural)]
pub struct GetDeliveryFeeResponse {
    pub fee: i32,
}

/// The request of `ReportDeliveryStatus`.
#[derive(Clone, Debug, PartialEq, Eq)]
pub struct ReportDeliveryStatusRequest {
    pub order_id: String,
    pub rider_id: String,
    pub status: DeliveryStatus,
}

/// A `ReportDeliveryStatusRequest` as a mathematical value.
pub struct ReportDeliveryStatusRequestView {
    pub order_id: Seq<char>,
    pub rider_id: Seq<char>,
    pub status: DeliveryStatus,
}

impl View for ReportDeliveryStatusRequest {
    type V = ReportDeliveryStatusRequestView;

    open spec fn view(&self) -> ReportDeliveryStatusRequestView {
        ReportDeliveryStatusRequestView {
            order_id: self.order_id@,
            rider_id: self.rider_id@,
            status: self.status,
        }
    }
}

/// The request of `ConfirmRiderAccept`.
#[derive(Clone, Debug, PartialEq, Eq)]
pub struct ConfirmRiderAcceptRequest {
    pub order_id: String,
    pub rider_id: String,
}

/// A `ConfirmRiderAcceptRequest` as a mathematical value.
pub struct ConfirmRiderAcceptRequestView {
    pub order_id: Seq<char>,
    pub rider_id: Seq<char>,
}

impl View for ConfirmRiderAcceptRequest {
    type V = ConfirmRiderAcceptRequestView;

    open spec fn view(&self) -> ConfirmRiderAcceptRequestView {
        ConfirmRiderAcceptRequestView { order_id: self.order_id@, rider_id: self.rider_id@ }
    }
}

/// The request of `ConfirmOrderDeliver`.
#[derive(Clone, Debug, PartialEq, Eq)]
pub struct ConfirmOrderDeliverRequest {
    pub order_id: String,
}

/// The request of `CreateRider`.
#[derive(Clone, Debug, PartialEq, Eq)]
pub struct CreateRiderRequest {
    pub rider_id: String,
    pub username: String,
}

/// A `CreateRiderRequest` as a mathematical value.
pub struct CreateRiderRequestView {
    pub rider_id: Seq<char>,
    pub username: Seq<char>,
}

impl View for CreateRiderRequest {
    type V = CreateRiderRequestView;

    open spec fn view(&self) -> CreateRiderRequestView {
        CreateRiderRequestView { rider_id: self.rider_id@, username: self.username@ }
    }
}

/// One item of the stream that `TrackingRider` answers with.
#[derive(Clone, Copy, Debug, PartialEq, Eq, Structural)]
pub struct TrackingRiderResponse {
    pub location: Option<Point>,
}

} // verus!
