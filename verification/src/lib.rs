//! A typed description of the Oura V2 REST API, verified with Verus.
//!
//! The crate plans requests and judges replies; it performs no I/O itself.
//! A caller builds an [`OuraClient`] from a personal access token, asks it
//! for the [`Request`] of a resource, sends that request with a transport of
//! their choice and hands the status and the decoded body to [`conclude`].
//!
//! [`models`] holds the closed vocabularies of the records, [`encoding`]
//! the encoding of query parameters and the proof that a reader recovers
//! what was sent.
//!
//! The V1 REST API is not covered.

pub mod client;
pub mod encoding;
pub mod models;
pub mod query;
pub mod resource;
pub mod response;

pub use client::{OuraClient, Request, API_BASE_URL};
pub use query::{DateQuery, DateQueryBuilder, DatetimeQuery, DatetimeQueryBuilder, Query, QueryKind};
pub use resource::Resource;
pub use response::{check_status, conclude, is_success, ApiError, ListResponse};
