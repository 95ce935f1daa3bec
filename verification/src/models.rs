//! The rows of the store.

use crate::messages::Timestamp;
use vstd::prelude::*;

verus! {

/// The status column of a delivery row. The status cache is the authority on
/// the status of an order; the column is kept for inspection.
#[derive(Clone, Copy, Debug, PartialEq, Eq, Structural)]
pub enum DbDeliveryStatus {
    Unaccept,
    Accepted,
    Delivered,
}

impl DbDeliveryStatus {
    /// The text that stands for the status in the column.
    pub open spec fn text(self) -> Seq<char> {
        match self {
            DbDeliveryStatus::Unaccept => "UNACCEPT"@,
            DbDeliveryStatus::Accepted => "ACCEPTED"@,
            DbDeliveryStatus::Delivered => "DELIVERED"@,
        }
    }

    /// The status that a text in the column stands for, if any.
    pub open spec fn of_text(text: Seq<char>) -> Option<DbDeliveryStatus> {
        if text == "UNACCEPT"@ {
            Some(DbDeliveryStatus::Unaccept)
        } else if text == "ACCEPTED"@ {
            Some(DbDeliveryStatus::Accepted)
        } else if text == "DELIVERED"@ {
            Some(DbDeliveryStatus::Delivered)
        } else {
            None
        }
    }

    /// Writes the status as the column holds it.
    pub fn as_str(&self) -> (text: &'static str)
        ensures
            text@ == self.text(),
    {
        match self {
            DbDeliveryStatus::Unaccept => "UNACCEPT",
            DbDeliveryStatus::Accepted => "ACCEPTED",
            DbDeliveryStatus::Delivered => "DELIVERED",
        }
    }

    /// Reads a status from the column.
    pub fn from_column(text: &str) -> (status: Option<DbDeliveryStatus>)
        ensures
            status == Self::of_text(text@),
    {
        if text.eq("UNACCEPT") {
            Some(DbDeliveryStatus::Unaccept)
        } else if text.eq("ACCEPTED") {
            Some(DbDeliveryStatus::Accepted)
        } else if text.eq("DELIVERED") {
            Some(DbDeliveryStatus::Delivered)
        } else {
            None
        }
    }
}

/// A status in the column is read back as it was written.
pub proof fn law_column_round_trip(status: DbDeliveryStatus)
    ensures
        DbDeliveryStatus::of_text(status.text()) == Some(status),
{
    reveal_strlit("UNACCEPT");
    reveal_strlit("ACCEPTED");
    reveal_strlit("DELIVERED");
    let unaccept = "UNACCEPT"@;
    let accepted = "ACCEPTED"@;
    let delivered = "DELIVERED"@;
    assert(unaccept[0] == 'U' && accepted[0] == 'A' && delivered[0] == 'D');
}

/// A stored point, each coordinate in units of 1/10,000,000 degree.
#[derive(Clone, Copy, Debug, PartialEq, Eq, Structural)]
pub struct DbPoint {
    pub latitude_e7: i32,
    pub longitude_e7: i32,
}

/// The moments of a delivery's life.
#[derive(Clone, Copy, Debug, PartialEq, Eq, Structural)]
pub struct DbTimestamp {
    /// When the service received the order.
    pub create_time: Timestamp,
    /// When a rider accepted the order.
    pub accept_time: Option<Timestamp>,
    /// When the order was delivered.
    pub deliver_time: Option<Timestamp>,
}

/// A rider to be stored.
#[derive(Clone, Debug, PartialEq, Eq)]
pub struct NewRider {
    pub rider_id: String,
    pub username: String,
    pub phone_number: String,
}

/// A `NewRider` as a mathematical value.
pub struct NewRiderView {
    pub rider_id: Seq<char>,
    pub username: Seq<char>,
    pub phone_number: Seq<char>,
}

impl View for NewRider {
    type V = NewRiderView;

    open spec fn view(&self) -> NewRiderView {
        NewRiderView {
            rider_id: self.rider_id@,
            username: self.username@,
            phone_number: self.phone_number@,
        }
    }
}

/// A stored rider.
#[derive(Clone, Debug, PartialEq, Eq)]
pub struct DbRider {
    pub id: String,
    pub username: String,
    pub phone_number: String,
}

/// A `DbRider` as a mathematical value.
pub struct DbRiderView {
    pub id: Seq<char>,
    pub username: Seq<char>,
    pub phone_number: Seq<char>,
}

impl View for DbRider {
    type V = DbRiderView;

    open spec fn view(&self) -> DbRiderView {
        DbRiderView { id: self.id@, username: self.username@, phone_number: self.phone_number@ }
    }
}

/// A delivery to be stored.
#[derive(Clone, Debug, PartialEq, Eq)]
pub struct NewDelivery {
    pub order_id: String,
    pub pickup_code: String,
    pub pickup_location: DbPoint,
    pub drop_off_location: DbPoint,
    pub create_time: Timestamp,
}

/// A `NewDelivery` as a mathematical value.
pub struct NewDeliveryView {
    pub order_id: Seq<char>,
    pub pickup_code: Seq<char>,
    pub pickup_location: DbPoint,
    pub drop_off_location: DbPoint,
    pub create_time: Timestamp,
}

impl View for NewDelivery {
    type V = NewDeliveryView;

    open spec fn view(&self) -> NewDeliveryView {
        NewDeliveryView {
            order_id: self.order_id@,
            pickup_code: self.pickup_code@,
            pickup_location: self.pickup_location,
            drop_off_location: self.drop_off_location,
            create_time: self.create_time,
        }
    }
}

/// A stored delivery, joined with the rider who accepted it.
#[derive(Clone, Debug, PartialEq, Eq)]
pub struct DbDelivery {
    pub order_id: String,
    /// The rider who accepted the order.
    pub rider: Option<DbRider>,
    /// The three digits that the rider shows at the merchant's.
    pub pickup_code: String,
    /// Where the merchant is.
    pub pickup_location: DbPoint,
    /// Where the customer is.
    pub drop_off_location: DbPoint,
    pub status: DbDeliveryStatus,
    pub timestamp: DbTimestamp,
}

/// A `DbDelivery` as a mathematical value.
pub struct DbDeliveryView {
    pub order_id: Seq<char>,
    pub rider: Option<DbRiderView>,
    pub pickup_code: Seq<char>,
    pub pickup_location: DbPoint,
    pub drop_off_location: DbPoint,
    pub status: DbDeliveryStatus,
    pub timestamp: DbTimestamp,
}

impl View for DbDelivery {
    type V = DbDeliveryView;

    open spec fn view(&self) -> DbDeliveryView {
        DbDeliveryView {
            order_id: self.order_id@,
            rider: match self.rider {
                Some(r) => Some(r@),
                None => None,
            },
            pickup_code: self.pickup_code@,
            pickup_location: self.pickup_location,
            drop_off_location: self.drop_off_location,
            status: self.status,
            timestamp: self.timestamp,
        }
    }
}

} // verus!
