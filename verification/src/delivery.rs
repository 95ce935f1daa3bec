//! The delivery core: pickup codes, geocoding, fee brackets and the
//! preparation of an order for delivery.

use crate::geo::{
    km_scaled, law_bracket_limits, law_within_is_numeric, Distance, Point, FIVE_KM_BITS,
    TEN_KM_BITS, TWENTY_FIVE_KM_BITS,
};
use crate::messages::{
    Address, PickupInfo, PickupInfoView, PlaceOrder, PlaceOrderView, Rider, RiderView,
};
use crate::outside::random_in;
use vstd::prelude::*;
use vstd::string::*;

verus! {

/// Why the core could not answer.
#[derive(Clone, Copy, Debug, PartialEq, Eq, Structural)]
pub enum DeliveryError {
    /// The order names no merchant address.
    MissingMerchantAddress,
    /// The order names no customer address.
    MissingUserAddress,
    /// The distance is not a number between 0 km and 25 km.
    OutOfRange,
}

impl DeliveryError {
    /// The text of the error.
    pub open spec fn text(self) -> Seq<char> {
        match self {
            DeliveryError::MissingMerchantAddress => "Merchant address is empty"@,
            DeliveryError::MissingUserAddress => "User address is empty"@,
            DeliveryError::OutOfRange => "distance must be between 0km and 25km"@,
        }
    }

    /// The text of the error, for the caller to show.
    pub fn message(&self) -> (text: &'static str)
        ensures
            text@ == self.text(),
    {
        match self {
            DeliveryError::MissingMerchantAddress => "Merchant address is empty",
            DeliveryError::MissingUserAddress => "User address is empty",
            DeliveryError::OutOfRange => "distance must be between 0km and 25km",
        }
    }
}

/// The smallest pickup code.
pub const MIN_PICKUP_CODE: i32 = 100;

/// The largest pickup code.
pub const MAX_PICKUP_CODE: i32 = 999;

/// The character of a decimal digit.
pub open spec fn digit_char(digit: int) -> char
    recommends
        0 <= digit <= 9,
{
    if digit == 0 {
        '0'
    } else if digit == 1 {
        '1'
    } else if digit == 2 {
        '2'
    } else if digit == 3 {
        '3'
    } else if digit == 4 {
        '4'
    } else if digit == 5 {
        '5'
    } else if digit == 6 {
        '6'
    } else if digit == 7 {
        '7'
    } else if digit == 8 {
        '8'
    } else {
        '9'
    }
}

/// A pickup code written out: hundreds, tens, units.
pub open spec fn code_text(code: int) -> Seq<char>
    recommends
        MIN_PICKUP_CODE <= code <= MAX_PICKUP_CODE,
{
    seq![digit_char(code / 100), digit_char((code / 10) % 10), digit_char(code % 10)]
}

/// Whether a text is a pickup code: the three digits of a number from 100 to
/// 999.
pub open spec fn is_pickup_code(text: Seq<char>) -> bool {
    exists|code: int| MIN_PICKUP_CODE <= code <= MAX_PICKUP_CODE && text == #[trigger] code_text(code)
}

fn digit_text(digit: i32) -> (text: &'static str)
    requires
        0 <= digit <= 9,
    ensures
        text@ == seq![digit_char(digit as int)],
{
    proof {
        reveal_strlit("0");
        reveal_strlit("1");
        reveal_strlit("2");
        reveal_strlit("3");
        reveal_strlit("4");
        reveal_strlit("5");
        reveal_strlit("6");
        reveal_strlit("7");
        reveal_strlit("8");
        reveal_strlit("9");
    }
    let text = if digit == 0 {
        "0"
    } else if digit == 1 {
        "1"
    } else if digit == 2 {
        "2"
    } else if digit == 3 {
        "3"
    } else if digit == 4 {
        "4"
    } else if digit == 5 {
        "5"
    } else if digit == 6 {
        "6"
    } else if digit == 7 {
        "7"
    } else if digit == 8 {
        "8"
    } else {
        "9"
    };
    assert(text@ =~= seq![digit_char(digit as int)]);
    text
}

/// Writes a pickup code out.
pub fn pickup_code_text(code: i32) -> (text: String)
    requires
        MIN_PICKUP_CODE <= code <= MAX_PICKUP_CODE,
    ensures
        text@ == code_text(code as int),
{
    let mut text = String::new();
    text.append(digit_text(code / 100));
    text.append(digit_text((code / 10) % 10));
    text.append(digit_text(code % 10));
    assert(text@ =~= code_text(code as int));
    text
}

/// The point on record for a district, if the district is known.
pub open spec fn district_point(district: Seq<char>) -> Option<Point> {
    if district == "Mueang"@ {
        Some(Point { latitude_e7: 187_883_000, longitude_e7: 989_853_000 })
    } else if district == "Hang Dong"@ {
        Some(Point { latitude_e7: 186_870_000, longitude_e7: 988_897_000 })
    } else if district == "San Sai"@ {
        Some(Point { latitude_e7: 188_578_000, longitude_e7: 990_631_000 })
    } else if district == "Mae Rim"@ {
        Some(Point { latitude_e7: 188_998_000, longitude_e7: 989_311_000 })
    } else if district == "Doi Saket"@ {
        Some(Point { latitude_e7: 188_482_000, longitude_e7: 991_403_000 })
    } else {
        None
    }
}

/// Looks the district of an address up in the table of known districts.
pub fn address_to_point(address: &Address) -> (point: Option<Point>)
    ensures
        point == district_point(address.district@),
{
    let district = address.district.as_str();
    if district.eq("Mueang") {
        Some(Point { latitude_e7: 187_883_000, longitude_e7: 989_853_000 })
    } else if district.eq("Hang Dong") {
        Some(Point { latitude_e7: 186_870_000, longitude_e7: 988_897_000 })
    } else if district.eq("San Sai") {
        Some(Point { latitude_e7: 188_578_000, longitude_e7: 990_631_000 })
    } else if district.eq("Mae Rim") {
        Some(Point { latitude_e7: 188_998_000, longitude_e7: 989_311_000 })
    } else if district.eq("Doi Saket") {
        Some(Point { latitude_e7: 188_482_000, longitude_e7: 991_403_000 })
    } else {
        None
    }
}

/// The largest offset in latitude that `fake_geocode` gives: 0.225 degree.
pub const MAX_FAKE_LATITUDE_E7: i32 = 2_250_000;

/// The largest offset in longitude that `fake_geocode` gives: 0.25 degree.
pub const MAX_FAKE_LONGITUDE_E7: i32 = 2_500_000;

/// Whether a point lies in the box around (0, 0) that `fake_geocode` draws
/// from.
pub open spec fn in_fake_box(point: Point) -> bool {
    &&& -MAX_FAKE_LATITUDE_E7 <= point.latitude_e7 <= MAX_FAKE_LATITUDE_E7
    &&& -MAX_FAKE_LONGITUDE_E7 <= point.longitude_e7 <= MAX_FAKE_LONGITUDE_E7
}

/// Stands in for a geocoder: whatever the address, a random point no further
/// than 0.225 degree of latitude and 0.25 degree of longitude from (0, 0).
pub fn fake_geocode(_addr: &Address) -> (point: Point)
    ensures
        in_fake_box(point),
{
    let latitude_e7: i32 = random_in(-MAX_FAKE_LATITUDE_E7, MAX_FAKE_LATITUDE_E7);
    let longitude_e7: i32 = random_in(-MAX_FAKE_LONGITUDE_E7, MAX_FAKE_LONGITUDE_E7);
    Point { latitude_e7, longitude_e7 }
}

/// How many riders are offered an order.
pub const NEAREST_RIDERS: usize = 5;

/// The fee, in the currency's unit, of a delivery over a distance: nothing up
/// to 5 km, 50 up to 10 km, 100 up to 25 km, and no delivery beyond that or
/// where the distance is no number at all.
pub open spec fn fee_of(distance: Distance) -> Result<i32, DeliveryError> {
    if !distance.within(TWENTY_FIVE_KM_BITS) {
        Err(DeliveryError::OutOfRange)
    } else if distance.within(FIVE_KM_BITS) {
        Ok(0i32)
    } else if distance.within(TEN_KM_BITS) {
        Ok(50i32)
    } else {
        Ok(100i32)
    }
}

/// What a rider is told when an order is offered.
#[derive(Clone, Debug, PartialEq, Eq)]
pub struct RiderNotice {
    pub rider_id: String,
    pub pickup_code: String,
}

/// A `RiderNotice` as a mathematical value.
pub struct RiderNoticeView {
    pub rider_id: Seq<char>,
    pub pickup_code: Seq<char>,
}

impl View for RiderNotice {
    type V = RiderNoticeView;

    open spec fn view(&self) -> RiderNoticeView {
        RiderNoticeView { rider_id: self.rider_id@, pickup_code: self.pickup_code@ }
    }
}

/// The views of a list of riders.
pub open spec fn rider_views(riders: Seq<Rider>) -> Seq<RiderView> {
    Seq::new(riders.len(), |i: int| riders[i]@)
}

/// The views of a list of notices.
pub open spec fn notice_views(notices: Seq<RiderNotice>) -> Seq<RiderNoticeView> {
    Seq::new(notices.len(), |i: int| notices[i]@)
}

/// The riders nearest to an order: five blank riders, until riders are ranked
/// by where they are.
pub open spec fn nearest_riders() -> Seq<RiderView> {
    Seq::new(NEAREST_RIDERS as nat, |i: int| RiderView::blank())
}

/// The notices for a list of riders: one for each rider, in the order of the
/// list, each with the pickup code.
pub open spec fn notices_for(riders: Seq<RiderView>, pickup_code: Seq<char>) -> Seq<RiderNoticeView> {
    Seq::new(riders.len(), |i: int| RiderNoticeView { rider_id: riders[i].rider_id, pickup_code })
}

/// The pickup information of an order for a given pickup code: the code
/// written out, and the points of the merchant's and the customer's district.
/// An order without a merchant address has none, whatever else it holds; nor
/// has one without a customer address.
pub open spec fn pickup_for(order: PlaceOrderView, code: int) -> Result<PickupInfoView, DeliveryError> {
    match (order.merchant_address, order.customer_address) {
        (None, _) => Err(DeliveryError::MissingMerchantAddress),
        (Some(_), None) => Err(DeliveryError::MissingUserAddress),
        (Some(merchant), Some(customer)) => Ok(
            PickupInfoView {
                pickup_code: code_text(code),
                pickup_location: district_point(merchant.district),
                drop_off_location: district_point(customer.district),
            },
        ),
    }
}

/// What an order is prepared with for a given pickup code: the nearest riders
/// and the pickup information.
pub open spec fn prepared_for(order: PlaceOrderView, code: int) -> Result<
    (Seq<RiderView>, PickupInfoView),
    DeliveryError,
> {
    match pickup_for(order, code) {
        Ok(info) => Ok((nearest_riders(), info)),
        Err(e) => Err(e),
    }
}

/// The view of what `generate_order_pickup` answers.
pub open spec fn pickup_view(pickup: Result<PickupInfo, DeliveryError>) -> Result<
    PickupInfoView,
    DeliveryError,
> {
    match pickup {
        Ok(info) => Ok(info@),
        Err(e) => Err(e),
    }
}

/// The view of what `prepare_order_delivery` answers.
pub open spec fn prepared_view(prepared: Result<(Vec<Rider>, PickupInfo), DeliveryError>) -> Result<
    (Seq<RiderView>, PickupInfoView),
    DeliveryError,
> {
    match prepared {
        Ok((riders, info)) => Ok((rider_views(riders@), info@)),
        Err(e) => Err(e),
    }
}

/// The delivery core. It holds no state.
#[derive(Clone, Copy, Debug)]
pub struct MyDelivery {}

impl MyDelivery {
    /// Chooses the riders to offer an order to and prepares its pickup
    /// information, with a pickup code drawn at random.
    pub fn prepare_order_delivery(order: &PlaceOrder) -> (prepared: Result<
        (Vec<Rider>, PickupInfo),
        DeliveryError,
    >)
        ensures
            exists|code: int|
                MIN_PICKUP_CODE <= code <= MAX_PICKUP_CODE && prepared_view(prepared)
                    == #[trigger] prepared_for(order@, code),
    {
        let code: i32 = random_in(MIN_PICKUP_CODE, MAX_PICKUP_CODE);
        let prepared = Self::prepare_with_code(order, code);
        assert(prepared_view(prepared) == prepared_for(order@, code as int));
        prepared
    }

    /// Chooses the riders to offer an order to and prepares its pickup
    /// information with the pickup code given.
    pub fn prepare_with_code(order: &PlaceOrder, code: i32) -> (prepared: Result<
        (Vec<Rider>, PickupInfo),
        DeliveryError,
    >)
        requires
            MIN_PICKUP_CODE <= code <= MAX_PICKUP_CODE,
        ensures
            prepared_view(prepared) == prepared_for(order@, code as int),
    {
        let riders = Self::calc_nearest_riders();
        match Self::pickup_with_code(order, code) {
            Ok(info) => Ok((riders, info)),
            Err(e) => Err(e),
        }
    }

    /// The notices that tell each rider of the pickup code.
    pub fn notify_riders(riders: &Vec<Rider>, pickup_info: &PickupInfo) -> (notices: Vec<RiderNotice>)
        ensures
            notice_views(notices@) == notices_for(rider_views(riders@), pickup_info.pickup_code@),
    {
        let mut notices: Vec<RiderNotice> = Vec::new();
        let mut i: usize = 0;
        while i < riders.len()
            invariant
                i <= riders.len(),
                notices@.len() == i,
                forall|j: int|
                    0 <= j < i ==> (#[trigger] notices@[j])@ == (RiderNoticeView {
                        rider_id: riders@[j].rider_id@,
                        pickup_code: pickup_info.pickup_code@,
                    }),
            decreases riders.len() - i,
        {
            notices.push(
                RiderNotice {
                    rider_id: riders[i].rider_id.clone(),
                    pickup_code: pickup_info.pickup_code.clone(),
                },
            );
            i = i + 1;
        }
        assert(notice_views(notices@) =~= notices_for(
            rider_views(riders@),
            pickup_info.pickup_code@,
        ));
        notices
    }

    /// The delivery fee for a measured distance.
    pub fn calc_delivery_fee(distance: Distance) -> (fee: Result<i32, DeliveryError>)
        ensures
            fee == fee_of(distance),
    {
        if !distance.is_within(TWENTY_FIVE_KM_BITS) {
            Err(DeliveryError::OutOfRange)
        } else if distance.is_within(FIVE_KM_BITS) {
            Ok(0)
        } else if distance.is_within(TEN_KM_BITS) {
            Ok(50)
        } else {
            Ok(100)
        }
    }

    /// The riders nearest to an order.
    pub fn calc_nearest_riders() -> (riders: Vec<Rider>)
        ensures
            rider_views(riders@) == nearest_riders(),
    {
        let mut riders: Vec<Rider> = Vec::new();
        let mut i: usize = 0;
        while i < NEAREST_RIDERS
            invariant
                i <= NEAREST_RIDERS,
                riders@.len() == i,
                forall|j: int| 0 <= j < i ==> (#[trigger] riders@[j])@ == RiderView::blank(),
            decreases NEAREST_RIDERS - i,
        {
            riders.push(Rider::default());
            i = i + 1;
        }
        assert(rider_views(riders@) =~= nearest_riders());
        riders
    }

    /// The pickup information of an order, with a pickup code drawn at
    /// random.
    pub fn generate_order_pickup(order: &PlaceOrder) -> (pickup: Result<PickupInfo, DeliveryError>)
        ensures
            exists|code: int|
                MIN_PICKUP_CODE <= code <= MAX_PICKUP_CODE && pickup_view(pickup)
                    == #[trigger] pickup_for(order@, code),
    {
        let code: i32 = random_in(MIN_PICKUP_CODE, MAX_PICKUP_CODE);
        let pickup = Self::pickup_with_code(order, code);
        assert(pickup_view(pickup) == pickup_for(order@, code as int));
        pickup
    }

    /// The pickup information of an order with the pickup code given.
    pub fn pickup_with_code(order: &PlaceOrder, code: i32) -> (pickup: Result<
        PickupInfo,
        DeliveryError,
    >)
        requires
            MIN_PICKUP_CODE <= code <= MAX_PICKUP_CODE,
        ensures
            pickup_view(pickup) == pickup_for(order@, code as int),
    {
        let pickup_code = pickup_code_text(code);
        let pickup_location = match &order.merchant_address {
            Some(address) => address_to_point(address),
            None => { return Err(DeliveryError::MissingMerchantAddress); },
        };
        let drop_off_location = match &order.customer_address {
            Some(address) => address_to_point(address),
            None => { return Err(DeliveryError::MissingUserAddress); },
        };
        Ok(PickupInfo { pickup_code, pickup_location, drop_off_location })
    }
}

/// The number that a decimal digit stands for.
pub open spec fn digit_value(c: char) -> Option<int> {
    if c == '0' {
        Some(0)
    } else if c == '1' {
        Some(1)
    } else if c == '2' {
        Some(2)
    } else if c == '3' {
        Some(3)
    } else if c == '4' {
        Some(4)
    } else if c == '5' {
        Some(5)
    } else if c == '6' {
        Some(6)
    } else if c == '7' {
        Some(7)
    } else if c == '8' {
        Some(8)
    } else if c == '9' {
        Some(9)
    } else {
        None
    }
}

/// The number that a text of three decimal digits stands for.
pub open spec fn three_digit_number(text: Seq<char>) -> Option<int> {
    if text.len() != 3 {
        None
    } else {
        match (digit_value(text[0]), digit_value(text[1]), digit_value(text[2])) {
            (Some(hundreds), Some(tens), Some(units)) => Some(100 * hundreds + 10 * tens + units),
            _ => None,
        }
    }
}

proof fn lemma_digit_round_trip(digit: int)
    requires
        0 <= digit <= 9,
    ensures
        digit_value(digit_char(digit)) == Some(digit),
{
}

proof fn lemma_digit_of_value(c: char)
    requires
        digit_value(c) is Some,
    ensures
        0 <= digit_value(c)->Some_0 <= 9,
        digit_char(digit_value(c)->Some_0) == c,
{
}

proof fn lemma_digits_of_number(hundreds: int, tens: int, units: int)
    requires
        0 <= hundreds <= 9,
        0 <= tens <= 9,
        0 <= units <= 9,
    ensures
        (100 * hundreds + 10 * tens + units) / 100 == hundreds,
        ((100 * hundreds + 10 * tens + units) / 10) % 10 == tens,
        (100 * hundreds + 10 * tens + units) % 10 == units,
{
}

proof fn lemma_number_of_digits(code: int)
    requires
        0 <= code <= 999,
    ensures
        0 <= code / 100 <= 9,
        0 <= (code / 10) % 10 <= 9,
        0 <= code % 10 <= 9,
        100 * (code / 100) + 10 * ((code / 10) % 10) + code % 10 == code,
{
}

/// A pickup code is three characters long, every one a decimal digit, and
/// reads as a number from 100 to 999; and every such text is a pickup code.
pub proof fn law_pickup_code_is_three_digits(text: Seq<char>)
    ensures
        is_pickup_code(text) <==> (three_digit_number(text) matches Some(n) && MIN_PICKUP_CODE <= n
            <= MAX_PICKUP_CODE),
{
    if is_pickup_code(text) {
        let code = choose|code: int|
            MIN_PICKUP_CODE <= code <= MAX_PICKUP_CODE && text == #[trigger] code_text(code);
        lemma_number_of_digits(code);
        lemma_digit_round_trip(code / 100);
        lemma_digit_round_trip((code / 10) % 10);
        lemma_digit_round_trip(code % 10);
        assert(three_digit_number(text) == Some(code));
    }
    if three_digit_number(text) is Some {
        let n = three_digit_number(text)->Some_0;
        if MIN_PICKUP_CODE <= n <= MAX_PICKUP_CODE {
            lemma_digit_of_value(text[0]);
            lemma_digit_of_value(text[1]);
            lemma_digit_of_value(text[2]);
            lemma_digits_of_number(
                digit_value(text[0])->Some_0,
                digit_value(text[1])->Some_0,
                digit_value(text[2])->Some_0,
            );
            assert(text =~= code_text(n));
        }
    }
}

/// An order with both addresses is prepared with a pickup code and, where the
/// districts of both addresses are known, with both locations.
pub proof fn law_prepared_order_has_code_and_locations(order: PlaceOrderView, code: int)
    requires
        MIN_PICKUP_CODE <= code <= MAX_PICKUP_CODE,
        order.merchant_address is Some,
        order.customer_address is Some,
    ensures
        prepared_for(order, code) matches Ok((riders, info)) && {
            &&& riders.len() == NEAREST_RIDERS
            &&& is_pickup_code(info.pickup_code)
            &&& info.pickup_code.len() == 3
            &&& (district_point(order.merchant_address->Some_0.district) is Some
                && district_point(order.customer_address->Some_0.district) is Some
                ==> info.pickup_location is Some && info.drop_off_location is Some)
        },
{
    assert(code_text(code).len() == 3);
}

/// The fee by the kilometre.
///
/// A length that is a number and not below zero costs nothing up to 5 km, 50
/// above 5 km and up to 10 km, and 100 above 10 km and up to 25 km; above
/// 25 km there is no delivery. Zero may bear either sign.
pub proof fn law_fee_by_kilometres(distance: Distance)
    requires
        distance.is_finite(),
        distance.is_zero() || !distance.is_negative(),
    ensures
        fee_of(distance) == if distance.scaled() <= km_scaled(5) {
            Ok::<i32, DeliveryError>(0i32)
        } else if distance.scaled() <= km_scaled(10) {
            Ok(50i32)
        } else if distance.scaled() <= km_scaled(25) {
            Ok(100i32)
        } else {
            Err(DeliveryError::OutOfRange)
        },
{
    law_bracket_limits();
    law_within_is_numeric(distance, FIVE_KM_BITS);
    law_within_is_numeric(distance, TEN_KM_BITS);
    law_within_is_numeric(distance, TWENTY_FIVE_KM_BITS);
    vstd::arithmetic::power2::lemma_pow2_pos(1074);
}

/// What is no length has no fee: a pattern that stands for no number, for
/// infinity or for a number below zero is out of range.
pub proof fn law_fee_of_no_length(distance: Distance)
    requires
        !distance.is_finite() || (distance.is_negative() && !distance.is_zero()),
    ensures
        fee_of(distance) == Err::<i32, DeliveryError>(DeliveryError::OutOfRange),
{
}

/// Zero costs nothing, whatever its sign.
pub proof fn law_fee_of_zero(distance: Distance)
    requires
        distance.is_zero(),
    ensures
        fee_of(distance) == Ok::<i32, DeliveryError>(0i32),
{
}

/// The fee does not fall as the distance grows, and takes no value but 0, 50
/// and 100.
///
/// Of two lengths from 0 km to 25 km, the first no longer than the second,
/// the first costs no more than the second.
pub proof fn law_fee_is_monotone(near: Distance, far: Distance)
    requires
        near.is_finite() && (near.is_zero() || !near.is_negative()),
        far.is_finite() && (far.is_zero() || !far.is_negative()),
        near.scaled() <= far.scaled() <= km_scaled(25),
    ensures
        fee_of(near) matches Ok(low) && fee_of(far) matches Ok(high) && low <= high && (low == 0
            || low == 50 || low == 100) && (high == 0 || high == 50 || high == 100),
{
    law_fee_by_kilometres(near);
    law_fee_by_kilometres(far);
}

} // verus!
