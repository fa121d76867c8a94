//! The live side of the relay: the events on the wire, the rooms they are
//! fanned out to, and the sessions that carry them.

pub mod registry;
pub mod schema;
pub mod ws;
