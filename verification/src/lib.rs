//! A real-time event relay for a chat and friendship service.
//!
//! The relay keeps one live session per connected identity, turns the text
//! frames of a connection into commands, decides what each command asks of the
//! persistent store and which event it publishes, and decides for every
//! published event which connections may see it.
//!
//! Nothing in this crate performs I/O. The connection handlers are state
//! machines: the caller feeds them frames and the answers of the store, and
//! carries out the effects they return.
//!
//! Beside the relay stand the rules of the accounts that connect to it: what
//! a new account has to look like, how its password is checked, and the code
//! that confirms its e-mail address.

pub mod text;
pub mod json;
pub mod frame;
pub mod registry;
pub mod claims;
pub mod connection;
pub mod chat;
pub mod friend;
pub mod verification;
pub mod account;
