//! A client library for the MediathekViewWeb API.
//!
//! A request is built with a [`MediathekQueryBuilder`], by calls or from a
//! search string, and goes over the wire as the JSON value that
//! [`MediathekQueryBuilder::into_request`] gives. The response comes back as a
//! JSON value too, and [`decode::receive`] turns it into the results of the
//! search or into the error that it stands for.
//!
//! The library sends nothing itself. Whoever uses it posts the request with
//! the HTTP client of the [`Mediathek`], and hands back what came of it.

pub mod client;
pub mod decode;
pub mod error;
pub mod json;
pub mod laws;
pub mod models;
pub mod query;
pub mod search;
pub mod text;

pub use crate::client::{Mediathek, MediathekQueryBuilder, Method, Request};
pub use crate::error::{DecodeError, ErrorKind, Fault, Key, MediathekError};
pub use crate::query::MediathekQuery;
