//! Browser impersonation for an HTTP client whose network work is done by
//! an external transport engine.
//!
//! A caller describes how a browser looks on the wire: the cipher suites
//! and extensions of its TLS ClientHello, in their order, and the settings
//! of its HTTP/2 connection. The library turns that description, and each
//! request, into the flat records that the engine takes, and turns the
//! engine's replies into responses and errors. The calls into the engine
//! are not made here: the library says what to send and what a reply
//! means.
//!
//! - [`client`] holds the description of a browser ([`client::impersonate`]),
//!   its flattening ([`client::codec`]), the shuffle of extensions
//!   ([`client::shuffle`]) and the lifecycle of the engine's client.
//! - [`request`] and [`response`] hold requests, responses and their
//!   marshalling; [`headers`] does the same for header maps.
//! - [`ffi`] holds the records, [`error`] the errors.

pub mod client;
pub mod error;
pub mod ffi;
pub mod headers;
pub mod request;
pub mod response;
