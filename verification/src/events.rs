//! The bot's internal event bus: the kinds of events, their payloads, the
//! listeners registered for them, and how gateway events are routed to them.
pub mod emitter;
pub mod events;
pub mod payloads;
pub mod route;
