//! The friend domain: requests for friendship, accepted or cancelled.

pub mod command;
pub mod inbound;
pub mod model;
pub mod outbound;
