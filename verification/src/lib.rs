//! Request routing and response construction for a small fixed set of HTTP
//! routes: two static HTML documents, one plain-text greeting, and three JSON
//! documents. Everything is computed in memory; the transport is someone
//! else's business.
//!
//! - [`router`] matches a method and a path against the table of routes and
//!   answers what matched.
//! - [`handlers`] holds one handler for each route.
//! - [`record`] holds the records that are sent as JSON and their encoders;
//!   [`json`] says what a JSON string literal is, and [`writer`] is the sink
//!   that encoders append to.
//! - [`assets`] is the read-only store of the two documents, [`response`]
//!   what a handler gives back.
//! - [`buffer`] is the border to the byte buffers of the `bytes` crate, and
//!   [`text`] relates strings to their UTF-8 bytes.

pub mod assets;
pub mod buffer;
pub mod handlers;
pub mod json;
pub mod record;
pub mod response;
pub mod router;
pub mod text;
pub mod writer;
