//! The event bus: one direct exchange shared by every routing key of the
//! service.

use crate::effects::Reply;
use vstd::prelude::*;

verus! {

/// The exchange that every message goes through.
pub const EXCHANGE: &'static str = "my_exchange";

/// The tag under which the service consumes, the same on every start.
pub const CONSUMER_TAG: &'static str = "delivery_service";

/// The routing key of the events that announce a placed order.
pub const ORDER_PLACED_KEY: &'static str = "order.placed.event";

/// The routing key of the events that announce a new rider.
pub const RIDER_CREATED_KEY: &'static str = "sync.rider.created";

/// The routing key under which the service tells that riders were notified.
pub const RIDER_NOTIFIED_KEY: &'static str = "rider.notified.event";

/// The routing key under which the service tells that a rider was assigned.
pub const RIDER_ASSIGNED_KEY: &'static str = "rider.assigned.event";

/// How an exchange is declared.
#[derive(Clone, Copy, Debug, PartialEq, Eq)]
pub struct ExchangeDeclaration {
    pub name: &'static str,
    /// Only check that the exchange is there.
    pub passive: bool,
    /// The exchange outlives a restart of the broker.
    pub durable: bool,
    /// The exchange goes when its last queue is unbound.
    pub auto_delete: bool,
    /// The exchange takes messages from other exchanges only.
    pub internal: bool,
    /// Do not wait for the broker's answer.
    pub nowait: bool,
}

/// The declaration of the service's exchange: a durable one that stays when
/// no queue is bound to it, declared in earnest and with the broker's answer
/// awaited.
pub fn exchange_declaration() -> (declaration: ExchangeDeclaration)
    ensures
        declaration.name@ == EXCHANGE@,
        declaration.durable,
        !declaration.auto_delete,
        !declaration.passive,
        !declaration.internal,
        !declaration.nowait,
{
    ExchangeDeclaration {
        name: EXCHANGE,
        passive: false,
        durable: true,
        auto_delete: false,
        internal: false,
        nowait: false,
    }
}

/// The reply to a `Publish`: done only when the broker has confirmed the
/// message.
pub fn publish_reply(confirmed: bool) -> (reply: Reply)
    ensures
        confirmed ==> reply == Reply::Done,
        !confirmed ==> reply == Reply::Failed,
{
    if confirmed {
        Reply::Done
    } else {
        Reply::Failed
    }
}

} // verus!
