//! Delivery assignment and lifecycle rules of a food-delivery platform.
//!
//! The crate holds the decisions of the delivery service: the rider-status
//! state machine, the delivery-fee brackets, pickup preparation, the event
//! handlers and the request handlers. Each handler is a step function from a
//! state and the reply to the last effect to the next state and the next
//! effect; a runtime performs the effects against the broker, the status
//! cache, the store and the directory services.

pub mod bootstrap;
pub mod bus;
pub mod delivery;
pub mod dispatcher;
pub mod effects;
pub mod fee;
pub mod geo;
pub mod handlers;
pub mod messages;
pub mod models;
mod outside;
pub mod report;
pub mod rpc;
pub mod status;
pub mod store_requests;
pub mod tracking;
pub mod world;

pub use delivery::{fake_geocode, MyDelivery};
pub use dispatcher::{EventDispatcher, EventHandler};
pub use models::{DbDelivery, DbPoint, DbRider, DbTimestamp, NewDelivery, NewRider};
