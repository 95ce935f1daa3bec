use deliveryservice::delivery::{DeliveryError, MyDelivery};
use deliveryservice::geo::{Distance, Point};

const EARTH_RADIUS: f64 = 6371.0;

fn degrees(units: i32) -> f64 {
    units as f64 / 10_000_000.0
}

fn haversine_distance(from: &Point, to: &Point) -> f64 {
    let lat1 = degrees(from.latitude_e7).to_radians();
    let lon1 = degrees(from.longitude_e7).to_radians();
    let lat2 = degrees(to.latitude_e7).to_radians();
    let lon2 = degrees(to.longitude_e7).to_radians();
    let dlat = lat2 - lat1;
    let dlon = lon2 - lon1;
    let a = (dlat / 2.0).sin().powi(2) + lat1.cos() * lat2.cos() * (dlon / 2.0).sin().powi(2);
    let c = 2.0 * a.sqrt().asin();
    EARTH_RADIUS * c
}

fn km(value: f64) -> Distance {
    Distance::from_bits(value.to_bits())
}

#[test]
fn test_calc_delivery_fee_failure() {
    let customer_point = Point { latitude_e7: 187_883_000, longitude_e7: 989_853_000 };
    let merchant_point = Point { latitude_e7: 500_000_000, longitude_e7: 500_000_000 };

    let distance = haversine_distance(&customer_point, &merchant_point);
    let result = MyDelivery::calc_delivery_fee(km(distance));

    assert!(result.is_err());
    assert!(result
        .unwrap_err()
        .message()
        .to_string()
        .contains("distance must be between 0km and 25km"));
}

#[test]
fn fee_brackets_at_their_edges() {
    assert_eq!(MyDelivery::calc_delivery_fee(km(0.0)), Ok(0));
    assert_eq!(MyDelivery::calc_delivery_fee(km(-0.0)), Ok(0));
    assert_eq!(MyDelivery::calc_delivery_fee(km(5.0)), Ok(0));
    assert_eq!(MyDelivery::calc_delivery_fee(km(5.000000000000001)), Ok(50));
    assert_eq!(MyDelivery::calc_delivery_fee(km(10.0)), Ok(50));
    assert_eq!(MyDelivery::calc_delivery_fee(km(10.000000000000002)), Ok(100));
    assert_eq!(MyDelivery::calc_delivery_fee(km(25.0)), Ok(100));
    assert_eq!(
        MyDelivery::calc_delivery_fee(km(25.000000000000004)),
        Err(DeliveryError::OutOfRange)
    );
    assert_eq!(MyDelivery::calc_delivery_fee(km(-1.0)), Err(DeliveryError::OutOfRange));
    assert_eq!(MyDelivery::calc_delivery_fee(km(f64::NAN)), Err(DeliveryError::OutOfRange));
    assert_eq!(MyDelivery::calc_delivery_fee(km(f64::INFINITY)), Err(DeliveryError::OutOfRange));
}

#[test]
fn fee_within_city() {
    let customer_point = Point { latitude_e7: 187_883_000, longitude_e7: 989_853_000 };
    let merchant_point = Point { latitude_e7: 186_870_000, longitude_e7: 988_897_000 };

    let distance = haversine_distance(&customer_point, &merchant_point);
    assert!((distance - 15.106941559444365).abs() < 1e-9);

    let delivery_fee = MyDelivery::calc_delivery_fee(km(distance)).unwrap();
    assert_eq!(delivery_fee, 100);
}

#[test]
fn fee_too_far() {
    let customer_point = Point { latitude_e7: 187_883_000, longitude_e7: 989_853_000 };
    let merchant_point = Point { latitude_e7: 500_000_000, longitude_e7: 500_000_000 };

    let distance = haversine_distance(&customer_point, &merchant_point);
    let error = MyDelivery::calc_delivery_fee(km(distance)).unwrap_err();
    assert_eq!(error, DeliveryError::OutOfRange);
    assert_eq!(error.message(), "distance must be between 0km and 25km");
}

#[test]
fn test_haversine_distance_failure() {
    let here = Point { latitude_e7: 0, longitude_e7: 0 };
    let there = Point { latitude_e7: 0, longitude_e7: 0 };

    let distance = haversine_distance(&here, &there);

    assert_eq!(distance, 0.0);
    assert_eq!(MyDelivery::calc_delivery_fee(km(distance)), Ok(0));
}

#[test]
fn fee_does_not_fall_with_the_distance() {
    let mut last = 0;
    let mut step = 0;
    while step <= 2500 {
        let fee = MyDelivery::calc_delivery_fee(km(step as f64 / 100.0)).unwrap();
        assert!(fee == 0 || fee == 50 || fee == 100);
        assert!(fee >= last);
        let expected = if step <= 500 {
            0
        } else if step <= 1000 {
            50
        } else {
            100
        };
        assert_eq!(fee, expected, "at {} km", step as f64 / 100.0);
        last = fee;
        step += 1;
    }
}

#[test]
fn distance_keeps_its_bits() {
    let distance = Distance::from_bits(0x4014_0000_0000_0000);
    assert_eq!(distance.to_bits(), 0x4014_0000_0000_0000);
    assert_eq!(f64::from_bits(distance.to_bits()), 5.0);
    assert!(distance.is_within(0x4014_0000_0000_0000));
    assert!(!distance.is_within(0x4013_FFFF_FFFF_FFFF));
    assert!(km(f64::MIN_POSITIVE).is_within(0x4014_0000_0000_0000));
    assert!(!km(-f64::MIN_POSITIVE).is_within(0x4014_0000_0000_0000));
}
