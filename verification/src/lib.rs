//! Verified core of an actor runtime: the decisions that the runtime's
//! address, builder, context and websocket helpers take, stated over plain
//! values and proved.

/// The active-actor counter word and its shutdown marker.
pub mod actor;
/// The single-message actor builder: an actor, a count, and the message traits.
pub mod actors;
/// Answers of addresses: delivery results, replies, subscriber answers.
pub mod address;
/// Settings of a set of actors and how its instances are spawned.
pub mod builder;
/// What the actor, handler and actor-module attributes generate for an
/// actor, as plain values: enum variants, impls and handler arms.
pub mod codegen;
/// The lifecycle of one actor context: manual shutdown, restarts, delayed messages.
pub mod context;
/// The error of talking to actors.
pub mod error;
/// Cancellation of spawned delayed and interval tasks.
pub mod future_handle;
/// The websocket opening handshake.
pub mod handshake;
/// Byte-level helpers for header values.
pub mod header;
/// The keyed set of interval futures.
pub mod interval;
/// A lock that can be closed for good.
pub mod lock;
/// The message attribute of the message macros.
pub mod message;
/// Websocket settings, heartbeat and stream decisions.
pub mod websocket;

pub use crate::builder::Builder;
