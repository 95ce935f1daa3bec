//! `GetDeliveryFee`: what a delivery from a merchant to one of a customer's
//! addresses costs.
//!
//! The handler asks the customer directory for the customer and picks the
//! address that the request names, asks the merchant directory for the
//! merchant's address, geocodes both, has the distance measured and answers
//! with the fee for it.

use crate::delivery::{fake_geocode, fee_of, in_fake_box, MyDelivery};
use crate::effects::{address_views, Effect, EffectView, Reply, ReplyView, Step, StepView};
use crate::geo::Point;
use crate::messages::{
    Address, AddressView, GetDeliveryFeeRequest, GetDeliveryFeeRequestView, GetDeliveryFeeResponse,
};
use crate::rpc::{answer_view, Status, StatusView};
use crate::world::{drive, World};
use vstd::prelude::*;
use vstd::string::*;

verus! {

/// How far a fee request has come.
#[derive(Clone, Debug, PartialEq, Eq)]
pub enum FeeFlow {
    /// The customer has been asked for.
    AwaitCustomer { request: GetDeliveryFeeRequest },
    /// The merchant has been asked for; the customer's address is at hand.
    AwaitMerchant { customer_address: Address },
    /// The distance is being measured.
    AwaitDistance,
}

/// A `FeeFlow` as a mathematical value.
pub enum FeeFlowView {
    AwaitCustomer { request: GetDeliveryFeeRequestView },
    AwaitMerchant { customer_address: AddressView },
    AwaitDistance,
}

impl View for FeeFlow {
    type V = FeeFlowView;

    open spec fn view(&self) -> FeeFlowView {
        match self {
            FeeFlow::AwaitCustomer { request } => FeeFlowView::AwaitCustomer { request: request@ },
            FeeFlow::AwaitMerchant { customer_address } => FeeFlowView::AwaitMerchant {
                customer_address: customer_address@,
            },
            FeeFlow::AwaitDistance => FeeFlowView::AwaitDistance,
        }
    }
}

/// What a fee request is answered with.
pub type FeeAnswer = Result<GetDeliveryFeeResponse, Status>;

/// A `FeeAnswer` as a mathematical value.
pub type FeeAnswerView = Result<GetDeliveryFeeResponse, StatusView>;

/// Whether the address at a place in a list is the first that goes by an id.
pub open spec fn first_address_at(addresses: Seq<AddressView>, address_id: Seq<char>, at: int) -> bool {
    &&& 0 <= at < addresses.len()
    &&& addresses[at].address_id == address_id
    &&& forall|j: int| 0 <= j < at ==> (#[trigger] addresses[j]).address_id != address_id
}

/// The first of a list of addresses that goes by an id, if there is one.
pub open spec fn address_by_id(addresses: Seq<AddressView>, address_id: Seq<char>) -> Option<
    AddressView,
> {
    if exists|at: int| first_address_at(addresses, address_id, at) {
        Some(addresses[choose|at: int| first_address_at(addresses, address_id, at)])
    } else {
        None
    }
}

/// The answer where an address is missing or a reply makes no sense.
pub open spec fn broken() -> StatusView {
    StatusView::internal("internal server error"@)
}

/// The answer to a measured distance: the fee, or a refusal where the
/// distance has none.
pub open spec fn fee_answer(distance: crate::geo::Distance) -> FeeAnswerView {
    match fee_of(distance) {
        Ok(fee) => Ok(GetDeliveryFeeResponse { fee }),
        Err(_) => Err(StatusView::internal("failed to calculate delivery fee"@)),
    }
}

/// The first step of a fee request.
pub open spec fn fee_start(request: GetDeliveryFeeRequestView) -> StepView<
    FeeFlowView,
    FeeAnswerView,
> {
    StepView::Perform(
        FeeFlowView::AwaitCustomer { request },
        EffectView::GetCustomer { customer_id: request.customer_id },
    )
}

/// The step of a fee request that follows a reply, with the points that the
/// geocoder gives for the customer and the merchant.
///
/// A refusal by a directory is handed on as it is.
pub open spec fn fee_resume(
    flow: FeeFlowView,
    reply: ReplyView,
    customer_point: Point,
    merchant_point: Point,
) -> StepView<FeeFlowView, FeeAnswerView> {
    match (flow, reply) {
        (_, ReplyView::Refused(status)) => StepView::Finish(Err(status)),
        (
            FeeFlowView::AwaitCustomer { request },
            ReplyView::Customer { addresses },
        ) => match address_by_id(addresses, request.customer_address_id) {
            Some(customer_address) => StepView::Perform(
                FeeFlowView::AwaitMerchant { customer_address },
                EffectView::GetMerchant { merchant_id: request.merchant_id },
            ),
            None => StepView::Finish(Err(broken())),
        },
        (
            FeeFlowView::AwaitMerchant { customer_address },
            ReplyView::Merchant { address: Some(_) },
        ) => StepView::Perform(
            FeeFlowView::AwaitDistance,
            EffectView::MeasureDistance { from: customer_point, to: merchant_point },
        ),
        (FeeFlowView::AwaitDistance, ReplyView::Measured(distance)) => StepView::Finish(
            fee_answer(distance),
        ),
        _ => StepView::Finish(Err(broken())),
    }
}

/// Looks for the first address that goes by an id.
pub fn find_address<'a>(addresses: &'a Vec<Address>, address_id: &str) -> (found: Option<
    &'a Address,
>)
    ensures
        match found {
            Some(address) => address_by_id(address_views(addresses@), address_id@) == Some(
                address@,
            ),
            None => address_by_id(address_views(addresses@), address_id@) is None,
        },
{
    let ghost views = address_views(addresses@);
    let mut i: usize = 0;
    while i < addresses.len()
        invariant
            i <= addresses.len(),
            views == address_views(addresses@),
            forall|j: int| 0 <= j < i ==> (#[trigger] views[j]).address_id != address_id@,
        decreases addresses.len() - i,
    {
        if addresses[i].address_id.as_str().eq(address_id) {
            proof {
                assert(first_address_at(views, address_id@, i as int));
                let chosen = choose|at: int| first_address_at(views, address_id@, at);
                assert(chosen == i);
            }
            return Some(&addresses[i]);
        }
        assert(views[i as int].address_id != address_id@);
        i = i + 1;
    }
    None
}

/// Answers a measured distance.
pub fn answer_distance(distance: crate::geo::Distance) -> (answer: FeeAnswer)
    ensures
        answer_view(answer) == fee_answer(distance),
{
    match MyDelivery::calc_delivery_fee(distance) {
        Ok(fee) => Ok(GetDeliveryFeeResponse { fee }),
        Err(_) => Err(Status::internal("failed to calculate delivery fee")),
    }
}

impl MyDelivery {
    /// Takes up a fee request: asks for the customer.
    pub fn get_delivery_fee(request: GetDeliveryFeeRequest) -> (step: Step<FeeFlow, FeeAnswer>)
        ensures
            step.view_as(|a: FeeAnswer| answer_view(a)) == fee_start(request@),
    {
        let customer_id = request.customer_id.clone();
        Step::Perform(FeeFlow::AwaitCustomer { request }, Effect::GetCustomer { customer_id })
    }
}

impl FeeFlow {
    /// Goes on with a fee request after a reply, geocoding with
    /// `fake_geocode`.
    pub fn resume(self, reply: Reply) -> (step: Step<FeeFlow, FeeAnswer>)
        ensures
            exists|customer_point: Point, merchant_point: Point|
                in_fake_box(customer_point) && in_fake_box(merchant_point) && step.view_as(
                    |a: FeeAnswer| answer_view(a),
                ) == #[trigger] fee_resume(self@, reply@, customer_point, merchant_point),
    {
        let (customer_point, merchant_point) = match (&self, &reply) {
            (
                FeeFlow::AwaitMerchant { customer_address },
                Reply::Merchant { address: Some(merchant_address) },
            ) => (fake_geocode(customer_address), fake_geocode(merchant_address)),
            _ => (Point { latitude_e7: 0, longitude_e7: 0 }, Point { latitude_e7: 0, longitude_e7: 0 }),
        };
        let ghost before = self@;
        let ghost reply_view = reply@;
        let step = self.resume_with(reply, customer_point, merchant_point);
        assert(step.view_as(|a: FeeAnswer| answer_view(a)) == fee_resume(
            before,
            reply_view,
            customer_point,
            merchant_point,
        ));
        step
    }

    /// Goes on with a fee request after a reply, with the points given for
    /// the customer and the merchant.
    pub fn resume_with(self, reply: Reply, customer_point: Point, merchant_point: Point) -> (step:
        Step<FeeFlow, FeeAnswer>)
        ensures
            step.view_as(|a: FeeAnswer| answer_view(a)) == fee_resume(
                self@,
                reply@,
                customer_point,
                merchant_point,
            ),
    {
        match (self, reply) {
            (_, Reply::Refused(status)) => Step::Finish(Err(status)),
            (FeeFlow::AwaitCustomer { request }, Reply::Customer { addresses }) => {
                match find_address(&addresses, request.customer_address_id.as_str()) {
                    Some(address) => Step::Perform(
                        FeeFlow::AwaitMerchant { customer_address: address.clone() },
                        Effect::GetMerchant { merchant_id: request.merchant_id },
                    ),
                    None => Step::Finish(Err(Status::internal("internal server error"))),
                }
            },
            (
                FeeFlow::AwaitMerchant { customer_address },
                Reply::Merchant { address: Some(_) },
            ) => Step::Perform(
                FeeFlow::AwaitDistance,
                Effect::MeasureDistance { from: customer_point, to: merchant_point },
            ),
            (FeeFlow::AwaitDistance, Reply::Measured(distance)) => Step::Finish(
                answer_distance(distance),
            ),
            _ => Step::Finish(Err(Status::internal("internal server error"))),
        }
    }
}

/// A fee request run to its end against the model of the world.
pub open spec fn fee_run(
    world: World,
    request: GetDeliveryFeeRequestView,
    customer_point: Point,
    merchant_point: Point,
) -> (World, Option<FeeAnswerView>) {
    drive(
        world,
        fee_start(request),
        |f: FeeFlowView, r: ReplyView| fee_resume(f, r, customer_point, merchant_point),
        3,
    )
}

/// A fee request is answered with the fee for the distance between the two
/// geocoded points, and changes nothing.
///
/// The customer must be known and have the address that the request names,
/// and the merchant must be known and have an address.
pub proof fn law_fee_request_answer(
    world: World,
    request: GetDeliveryFeeRequestView,
    customer_point: Point,
    merchant_point: Point,
)
    requires
        world.customers.contains_key(request.customer_id),
        address_by_id(world.customers[request.customer_id], request.customer_address_id) is Some,
        world.merchants.contains_key(request.merchant_id),
        world.merchants[request.merchant_id] is Some,
    ensures
        fee_run(world, request, customer_point, merchant_point) == (
            world,
            Some(fee_answer((world.distances)(customer_point, merchant_point))),
        ),
{
    reveal_with_fuel(drive, 4);
}

} // verus!
