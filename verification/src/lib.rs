//! A bridge over which a host process and a client process call each other's
//! capabilities as if they were local objects.
//!
//! - [`messages`] holds the message contract: the closed set of messages of
//!   each direction. [`schema`], [`payload`] and [`wire`] say how a message is
//!   laid out in bytes, and prove that decoding and encoding invert each
//!   other.
//! - [`frame`] and [`transport`] carry payloads as frames over a byte stream,
//!   and reassemble frames from whatever chunks arrive.
//! - [`registry`] maps the address of a frame to the session that answers it.
//! - [`apps_service_delegate`] and [`dispatch`] take a request from the frame
//!   to the thread that owns its capability and back to its one response.
//! - [`pending`] keeps the requests of this side until their answers arrive.
//! - [`b2glinuxhal`], [`glcursor`], [`ipfs_handler`] and [`prefs`] hold the
//!   rules of some capabilities that the bridge serves.
//!
//! Sockets, threads, the graphics device and the services of the host are the
//! caller's: the library is handed what they gave, and says what is to be done
//! next.

use vstd::prelude::*;

pub mod apps_service_delegate;
pub mod b2glinuxhal;
pub mod dispatch;
pub mod errors;
pub mod frame;
pub mod glcursor;
pub mod ipfs_handler;
pub mod messages;
pub mod payload;
pub mod pending;
pub mod prefs;
pub mod registry;
pub mod schema;
pub mod transport;
pub mod wire;

verus! {

/// Identifies a service, or an object of a service, on one connection.
pub type TrackerId = u32;

} // verus!
