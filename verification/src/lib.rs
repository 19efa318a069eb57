//! Typed client models for the documented X-Plane local web API.
//!
//! - `websocket`: typed websocket request/response models, the request-ID
//!   bookkeeping of the websocket client and the decisions it takes on each
//!   incoming frame.
//! - `error`: classification of REST client failures into `RestClientError`.
//! - `rest`: the REST base URL and the documented API error body.
//! - `cli`: the checks that a command-line front end for the REST API makes
//!   on its input.
//! - `foreign`: the outside types that the library carries and the contracts
//!   of the outside functions that it calls.
//!
//! The typed REST client itself is generated from the API's OpenAPI
//! description, which this crate does not carry; neither does it carry the
//! command-line front end. What surrounds that client is here: its base URL,
//! its documented error body and the classification of its errors.
pub mod foreign;

pub mod cli;
pub mod error;
pub mod rest;
pub mod websocket;
