use deliveryservice::delivery::{
    address_to_point, pickup_code_text, DeliveryError, MAX_PICKUP_CODE, MIN_PICKUP_CODE,
};
use deliveryservice::geo::Point;
use deliveryservice::messages::{Address, PickupInfo, PlaceOrder, Rider};
use deliveryservice::{fake_geocode, MyDelivery};

fn address(district: &str) -> Address {
    Address {
        address_id: String::from("a-1"),
        district: String::from(district),
        street: String::from("Test Street"),
        building: String::from("Test Building"),
    }
}

fn order(merchant: Option<&str>, customer: Option<&str>) -> PlaceOrder {
    PlaceOrder {
        order_id: String::from("test_order_456"),
        merchant_address: merchant.map(address),
        customer_address: customer.map(address),
    }
}

fn degrees(units: i32) -> f64 {
    units as f64 / 10_000_000.0
}

#[test]
fn test_prepare_order_delivery_success() {
    let place_orders = vec![
        order(Some("Mueang"), Some("Hang Dong")),
        order(Some("San Sai"), Some("Mae Rim")),
        order(Some("Doi Saket"), Some("Mueang")),
    ];

    for place_order in place_orders {
        let result = MyDelivery::prepare_order_delivery(&place_order);

        assert!(result.is_ok());
        let (riders, pickup_info) = result.unwrap();
        assert_eq!(riders.len(), 5);
        assert!(pickup_info.pickup_location.is_some());
        assert!(pickup_info.drop_off_location.is_some());
    }
}

#[test]
fn prepare_needs_the_merchant_address() {
    let result = MyDelivery::prepare_order_delivery(&order(None, Some("Hang Dong")));
    let error = result.unwrap_err();
    assert_eq!(error, DeliveryError::MissingMerchantAddress);
    assert!(error.message().to_string().contains("Merchant address is empty"));
}

#[test]
fn prepare_needs_the_customer_address() {
    let result = MyDelivery::prepare_order_delivery(&order(Some("Mueang"), None));
    let error = result.unwrap_err();
    assert_eq!(error, DeliveryError::MissingUserAddress);
    assert_eq!(error.message(), "User address is empty");
}

#[test]
fn the_merchant_address_is_missed_first() {
    let result = MyDelivery::prepare_with_code(&order(None, None), 100);
    assert_eq!(result.unwrap_err(), DeliveryError::MissingMerchantAddress);
}

#[test]
fn prepare_with_a_code_is_exact() {
    let (riders, info) =
        MyDelivery::prepare_with_code(&order(Some("Mueang"), Some("Hang Dong")), 507).unwrap();
    assert_eq!(riders, vec![Rider::default(); 5]);
    assert_eq!(
        info,
        PickupInfo {
            pickup_code: String::from("507"),
            pickup_location: Some(Point { latitude_e7: 187_883_000, longitude_e7: 989_853_000 }),
            drop_off_location: Some(Point { latitude_e7: 186_870_000, longitude_e7: 988_897_000 }),
        }
    );
}

#[test]
fn an_unknown_district_leaves_the_location_open() {
    let info = MyDelivery::pickup_with_code(&order(Some("Unknown District"), Some("Mae Rim")), 999)
        .unwrap();
    assert_eq!(info.pickup_code, "999");
    assert_eq!(info.pickup_location, None);
    assert_eq!(
        info.drop_off_location,
        Some(Point { latitude_e7: 188_998_000, longitude_e7: 989_311_000 })
    );
}

#[test]
fn pickup_codes_are_written_with_three_digits() {
    assert_eq!(pickup_code_text(100), "100");
    assert_eq!(pickup_code_text(109), "109");
    assert_eq!(pickup_code_text(110), "110");
    assert_eq!(pickup_code_text(507), "507");
    assert_eq!(pickup_code_text(990), "990");
    assert_eq!(pickup_code_text(999), "999");
    for code in MIN_PICKUP_CODE..=MAX_PICKUP_CODE {
        assert_eq!(pickup_code_text(code), code.to_string());
    }
}

#[test]
fn drawn_pickup_codes_are_numbers_from_100_to_999() {
    let place_order = order(Some("Mueang"), Some("Hang Dong"));
    let mut seen = std::collections::HashSet::new();
    for _ in 0..300 {
        let info = MyDelivery::generate_order_pickup(&place_order).unwrap();
        assert_eq!(info.pickup_code.len(), 3);
        assert!(info.pickup_code.chars().all(|c| c.is_ascii_digit()));
        let code: i32 = info.pickup_code.parse().unwrap();
        assert!((100..=999).contains(&code));
        seen.insert(code);
    }
    assert!(seen.len() > 1, "the pickup code never varies");
}

#[test]
fn test_address_to_point_success() {
    let result = address_to_point(&address("Mueang"));

    assert!(result.is_some());
    let point = result.unwrap();
    assert_eq!(degrees(point.latitude_e7), 18.7883);
    assert_eq!(degrees(point.longitude_e7), 98.9853);
}

#[test]
fn test_address_to_point_failure() {
    let result = address_to_point(&address("Unknown District"));

    assert!(result.is_none());
}

#[test]
fn every_known_district_has_its_point() {
    let table = [
        ("Mueang", 18.7883, 98.9853),
        ("Hang Dong", 18.6870, 98.8897),
        ("San Sai", 18.8578, 99.0631),
        ("Mae Rim", 18.8998, 98.9311),
        ("Doi Saket", 18.8482, 99.1403),
    ];
    for (district, latitude, longitude) in table {
        let point = address_to_point(&address(district)).unwrap();
        assert_eq!(degrees(point.latitude_e7), latitude, "{district}");
        assert_eq!(degrees(point.longitude_e7), longitude, "{district}");
    }
    assert_eq!(address_to_point(&address("mueang")), None);
    assert_eq!(address_to_point(&address("")), None);
    assert_eq!(address_to_point(&address("Mueang ")), None);
}

#[test]
fn test_calc_nearest_riders_success() {
    let riders = MyDelivery::calc_nearest_riders();

    assert_eq!(riders.len(), 5);
    for rider in riders {
        assert_eq!(rider, Rider::default());
    }
}

#[test]
fn the_blank_rider_is_empty() {
    let rider = Rider::default();
    assert_eq!(rider.rider_id, "");
    assert_eq!(rider.username, "");
    assert_eq!(rider.phone_number, "");
}

#[test]
fn every_rider_gets_a_notice_with_the_code() {
    let riders = vec![
        Rider {
            rider_id: String::from("r1"),
            username: String::from("one"),
            phone_number: String::new(),
        },
        Rider {
            rider_id: String::from("r2"),
            username: String::from("two"),
            phone_number: String::new(),
        },
    ];
    let info = PickupInfo {
        pickup_code: String::from("321"),
        pickup_location: None,
        drop_off_location: None,
    };
    let notices = MyDelivery::notify_riders(&riders, &info);
    assert_eq!(notices.len(), 2);
    assert_eq!(notices[0].rider_id, "r1");
    assert_eq!(notices[0].pickup_code, "321");
    assert_eq!(notices[1].rider_id, "r2");
    assert_eq!(notices[1].pickup_code, "321");
}

#[test]
fn no_riders_no_notices() {
    let info = PickupInfo {
        pickup_code: String::from("321"),
        pickup_location: None,
        drop_off_location: None,
    };
    assert!(MyDelivery::notify_riders(&Vec::new(), &info).is_empty());
}

#[test]
fn fake_points_stay_in_their_box() {
    let any = address("Mueang");
    let mut seen = std::collections::HashSet::new();
    for _ in 0..300 {
        let point = fake_geocode(&any);
        assert!((-2_250_000..=2_250_000).contains(&point.latitude_e7));
        assert!((-2_500_000..=2_500_000).contains(&point.longitude_e7));
        assert!(degrees(point.latitude_e7).abs() <= 0.225);
        assert!(degrees(point.longitude_e7).abs() <= 0.25);
        seen.insert((point.latitude_e7, point.longitude_e7));
    }
    assert!(seen.len() > 1, "the geocoder never varies");
}
