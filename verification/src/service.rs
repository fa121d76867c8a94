//! The durable side of the relay: the event log and the workers that drain
//! it into the store.

pub mod entry;
pub mod stream;
pub mod worker;
