//! Typed records kept as documents in a document store: the document value,
//! the encodings of users and events, the reading of the store's replies to
//! inserts and lookups, and random bearer tokens.

pub mod datum;
pub mod error;
pub mod persisted;
pub mod user;
pub mod event;
pub mod auth;
