//! The chat domain: messages, chats and biographies.

pub mod command;
pub mod inbound;
pub mod model;
pub mod outbound;
