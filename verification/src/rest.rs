//! The REST side of the API: its base URL and its documented error body.
use vstd::prelude::*;

verus! {

/// Default base URL for the local X-Plane REST API.
pub const DEFAULT_REST_API_BASE_URL: &'static str = "http://localhost:8086";

/// The documented body of a REST error response.
#[derive(Clone, Debug, PartialEq, Eq)]
pub struct ApiError {
    pub error_code: String,
    pub error_message: String,
}

} // verus!
