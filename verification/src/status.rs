//! The lifecycle status of a delivery and the guard on its transitions.

use vstd::prelude::*;

verus! {

/// Where a delivery stands between being placed and being handed over.
#[derive(Clone, Copy, Debug, PartialEq, Eq, Structural)]
pub enum DeliveryStatus {
    RiderUnaccept,
    RiderAccepted,
    RiderPickedUp,
    RiderDelivered,
}

impl DeliveryStatus {
    /// Position of the status in the lifecycle, counted from zero.
    pub open spec fn rank(self) -> nat {
        match self {
            DeliveryStatus::RiderUnaccept => 0,
            DeliveryStatus::RiderAccepted => 1,
            DeliveryStatus::RiderPickedUp => 2,
            DeliveryStatus::RiderDelivered => 3,
        }
    }

    /// The canonical name under which the status is stored in the cache.
    pub open spec fn name(self) -> Seq<char> {
        match self {
            DeliveryStatus::RiderUnaccept => "RIDER_UNACCEPT"@,
            DeliveryStatus::RiderAccepted => "RIDER_ACCEPTED"@,
            DeliveryStatus::RiderPickedUp => "RIDER_PICKED_UP"@,
            DeliveryStatus::RiderDelivered => "RIDER_DELIVERED"@,
        }
    }

    /// The status that a stored name stands for, if any.
    pub open spec fn parse(text: Seq<char>) -> Option<DeliveryStatus> {
        if text == "RIDER_UNACCEPT"@ {
            Some(DeliveryStatus::RiderUnaccept)
        } else if text == "RIDER_ACCEPTED"@ {
            Some(DeliveryStatus::RiderAccepted)
        } else if text == "RIDER_PICKED_UP"@ {
            Some(DeliveryStatus::RiderPickedUp)
        } else if text == "RIDER_DELIVERED"@ {
            Some(DeliveryStatus::RiderDelivered)
        } else {
            None
        }
    }

    /// The status that a number on the wire stands for, if any.
    pub open spec fn of_number(number: int) -> Option<DeliveryStatus> {
        if number == 0 {
            Some(DeliveryStatus::RiderUnaccept)
        } else if number == 1 {
            Some(DeliveryStatus::RiderAccepted)
        } else if number == 2 {
            Some(DeliveryStatus::RiderPickedUp)
        } else if number == 3 {
            Some(DeliveryStatus::RiderDelivered)
        } else {
            None
        }
    }

    /// Reads a status from its number on the wire.
    pub fn from_i32(value: i32) -> (status: Option<DeliveryStatus>)
        ensures
            status == Self::of_number(value as int),
    {
        match value {
            0 => Some(DeliveryStatus::RiderUnaccept),
            1 => Some(DeliveryStatus::RiderAccepted),
            2 => Some(DeliveryStatus::RiderPickedUp),
            3 => Some(DeliveryStatus::RiderDelivered),
            _ => None,
        }
    }

    /// Reads a status from its number on the wire as a reader of the wire
    /// does who must have a status: a number that stands for none counts as
    /// the first status.
    pub fn from_wire(value: i32) -> (status: DeliveryStatus)
        ensures
            status == match Self::of_number(value as int) {
                Some(known) => known,
                None => DeliveryStatus::RiderUnaccept,
            },
    {
        match Self::from_i32(value) {
            Some(known) => known,
            None => DeliveryStatus::RiderUnaccept,
        }
    }

    /// The number of the status on the wire: its position in the lifecycle.
    pub fn number(&self) -> (value: i32)
        ensures
            value == self.rank(),
            Self::of_number(value as int) == Some(*self),
    {
        match self {
            DeliveryStatus::RiderUnaccept => 0,
            DeliveryStatus::RiderAccepted => 1,
            DeliveryStatus::RiderPickedUp => 2,
            DeliveryStatus::RiderDelivered => 3,
        }
    }

    /// Whether an order in status `self` may move on to `target`: only
    /// forwards, never to the status it is in and never back.
    pub open spec fn may_become(self, target: DeliveryStatus) -> bool {
        self.rank() < target.rank()
    }

    /// The position of the status in the lifecycle.
    pub fn ordinal(&self) -> (position: u8)
        ensures
            position == self.rank(),
    {
        match self {
            DeliveryStatus::RiderUnaccept => 0,
            DeliveryStatus::RiderAccepted => 1,
            DeliveryStatus::RiderPickedUp => 2,
            DeliveryStatus::RiderDelivered => 3,
        }
    }

    /// Decides whether an order in status `self` may move on to `target`.
    pub fn can_become(&self, target: DeliveryStatus) -> (allowed: bool)
        ensures
            allowed == self.may_become(target),
    {
        self.ordinal() < target.ordinal()
    }

    /// The name under which the status is stored in the cache.
    pub fn as_str_name(&self) -> (name: &'static str)
        ensures
            name@ == self.name(),
    {
        match self {
            DeliveryStatus::RiderUnaccept => "RIDER_UNACCEPT",
            DeliveryStatus::RiderAccepted => "RIDER_ACCEPTED",
            DeliveryStatus::RiderPickedUp => "RIDER_PICKED_UP",
            DeliveryStatus::RiderDelivered => "RIDER_DELIVERED",
        }
    }

    /// Reads a status from the name under which it is stored.
    pub fn from_str_name(value: &str) -> (status: Option<DeliveryStatus>)
        ensures
            status == Self::parse(value@),
    {
        if *value == *"RIDER_UNACCEPT" {
            Some(DeliveryStatus::RiderUnaccept)
        } else if value.eq("RIDER_ACCEPTED") {
            Some(DeliveryStatus::RiderAccepted)
        } else if value.eq("RIDER_PICKED_UP") {
            Some(DeliveryStatus::RiderPickedUp)
        } else if value.eq("RIDER_DELIVERED") {
            Some(DeliveryStatus::RiderDelivered)
        } else {
            None
        }
    }
}

impl Default for DeliveryStatus {
    /// The status of an order that no rider has accepted.
    fn default() -> (status: DeliveryStatus)
        ensures
            status == DeliveryStatus::RiderUnaccept,
    {
        DeliveryStatus::RiderUnaccept
    }
}

/// The names of two statuses are equal only if the statuses are, and the name
/// of a status is read back as that status.
pub proof fn law_name_round_trip(status: DeliveryStatus)
    ensures
        DeliveryStatus::parse(status.name()) == Some(status),
{
    reveal_strlit("RIDER_UNACCEPT");
    reveal_strlit("RIDER_ACCEPTED");
    reveal_strlit("RIDER_PICKED_UP");
    reveal_strlit("RIDER_DELIVERED");
    let unaccept = "RIDER_UNACCEPT"@;
    let accepted = "RIDER_ACCEPTED"@;
    let picked_up = "RIDER_PICKED_UP"@;
    let delivered = "RIDER_DELIVERED"@;
    assert(unaccept[6] == 'U' && accepted[6] == 'A' && picked_up[6] == 'P' && delivered[6] == 'D');
}

} // verus!
