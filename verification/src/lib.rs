//! Mouse-input event value types for an event-dispatch subsystem.
//!
//! Each event type carries a small numeric payload, a mutable `handled`
//! flag for a dispatcher to mark consumption, fixed type and category
//! tags for routing, and an exactly specified textual description for
//! logs.

pub mod decimal;
pub mod event;
pub mod mouse;
