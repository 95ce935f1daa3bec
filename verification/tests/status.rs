use deliveryservice::models::DbDeliveryStatus;
use deliveryservice::report::check_transition;
use deliveryservice::rpc::Code;
use deliveryservice::status::DeliveryStatus;

const ALL: [DeliveryStatus; 4] = [
    DeliveryStatus::RiderUnaccept,
    DeliveryStatus::RiderAccepted,
    DeliveryStatus::RiderPickedUp,
    DeliveryStatus::RiderDelivered,
];

#[test]
fn status_names_are_canonical() {
    assert_eq!(DeliveryStatus::RiderUnaccept.as_str_name(), "RIDER_UNACCEPT");
    assert_eq!(DeliveryStatus::RiderAccepted.as_str_name(), "RIDER_ACCEPTED");
    assert_eq!(DeliveryStatus::RiderPickedUp.as_str_name(), "RIDER_PICKED_UP");
    assert_eq!(DeliveryStatus::RiderDelivered.as_str_name(), "RIDER_DELIVERED");
}

#[test]
fn status_names_read_back() {
    for status in ALL {
        assert_eq!(DeliveryStatus::from_str_name(status.as_str_name()), Some(status));
    }
}

#[test]
fn unknown_status_names_are_not_read() {
    assert_eq!(DeliveryStatus::from_str_name(""), None);
    assert_eq!(DeliveryStatus::from_str_name("rider_accepted"), None);
    assert_eq!(DeliveryStatus::from_str_name("RIDER_ACCEPTED "), None);
    assert_eq!(DeliveryStatus::from_str_name("DELIVERED"), None);
}

#[test]
fn status_ordinals_count_from_zero() {
    assert_eq!(DeliveryStatus::RiderUnaccept.ordinal(), 0);
    assert_eq!(DeliveryStatus::RiderAccepted.ordinal(), 1);
    assert_eq!(DeliveryStatus::RiderPickedUp.ordinal(), 2);
    assert_eq!(DeliveryStatus::RiderDelivered.ordinal(), 3);
}

#[test]
fn an_order_only_moves_forwards() {
    for (i, current) in ALL.iter().enumerate() {
        for (j, target) in ALL.iter().enumerate() {
            assert_eq!(current.can_become(*target), i < j, "{current:?} -> {target:?}");
            assert_eq!(check_transition(*current, *target).is_ok(), i < j);
        }
    }
}

#[test]
fn a_stale_report_is_a_failed_precondition() {
    let refused = check_transition(DeliveryStatus::RiderAccepted, DeliveryStatus::RiderAccepted)
        .unwrap_err();
    assert_eq!(refused.code, Code::FailedPrecondition);
    assert_eq!(refused.message, "order has already accepted");

    let refused = check_transition(DeliveryStatus::RiderDelivered, DeliveryStatus::RiderPickedUp)
        .unwrap_err();
    assert_eq!(refused.code, Code::FailedPrecondition);
    assert_eq!(refused.message, "order has already picked up");

    let refused = check_transition(DeliveryStatus::RiderDelivered, DeliveryStatus::RiderDelivered)
        .unwrap_err();
    assert_eq!(refused.code, Code::FailedPrecondition);
    assert_eq!(refused.message, "order has already delivered");
}

#[test]
fn a_report_of_unaccept_is_never_let_through() {
    for current in ALL {
        let refused = check_transition(current, DeliveryStatus::RiderUnaccept).unwrap_err();
        assert_eq!(refused.code, Code::Internal);
        assert_eq!(refused.message, "internal server error");
    }
}

#[test]
fn statuses_have_their_numbers_on_the_wire() {
    for (number, status) in ALL.iter().enumerate() {
        assert_eq!(status.number(), number as i32);
        assert_eq!(DeliveryStatus::from_i32(number as i32), Some(*status));
        assert_eq!(DeliveryStatus::from_wire(number as i32), *status);
    }
    for unknown in [-1, 4, 100, i32::MIN, i32::MAX] {
        assert_eq!(DeliveryStatus::from_i32(unknown), None);
        assert_eq!(DeliveryStatus::from_wire(unknown), DeliveryStatus::RiderUnaccept);
    }
    assert_eq!(DeliveryStatus::default(), DeliveryStatus::RiderUnaccept);
}

#[test]
fn the_status_column_is_read_back() {
    let all = [DbDeliveryStatus::Unaccept, DbDeliveryStatus::Accepted, DbDeliveryStatus::Delivered];
    assert_eq!(DbDeliveryStatus::Unaccept.as_str(), "UNACCEPT");
    assert_eq!(DbDeliveryStatus::Accepted.as_str(), "ACCEPTED");
    assert_eq!(DbDeliveryStatus::Delivered.as_str(), "DELIVERED");
    for status in all {
        assert_eq!(DbDeliveryStatus::from_column(status.as_str()), Some(status));
    }
    assert_eq!(DbDeliveryStatus::from_column("unaccept"), None);
    assert_eq!(DbDeliveryStatus::from_column("RIDER_ACCEPTED"), None);
    assert_eq!(DbDeliveryStatus::from_column(""), None);
}
