//! Canned HTTP rejection responses.
//!
//! An inbound request whose signer cannot be resolved and trusted is
//! rejected, never processed optimistically. The response values are
//! built here as plain status, content type and body; the transport layer
//! turns them into its own response type.

use vstd::prelude::*;
use vstd::string::StringExecFns;

verus! {

/// A rejection response: status code, content type and JSON body.
#[derive(Debug, PartialEq, Eq)]
pub struct HttpResponse {
    pub status: u16,
    pub content_type: String,
    pub body: String,
}

impl HttpResponse {
    /// The authentication failure answered when a signer cannot be
    /// resolved and trusted.
    pub fn unauthorized() -> (r: HttpResponse)
        ensures
            r.status == 401,
            r.content_type@ == "Application/json"@,
            r.body@ == "{\"message\": \"Unauthorized (401)\"}"@,
    {
        HttpResponse {
            status: 401,
            content_type: String::from_str("Application/json"),
            body: String::from_str("{\"message\": \"Unauthorized (401)\"}"),
        }
    }

    pub fn not_found() -> (r: HttpResponse)
        ensures
            r.status == 404,
            r.content_type@ == "Application/json"@,
            r.body@ == "{\"message\": \"Not Found (404)\"}"@,
    {
        HttpResponse {
            status: 404,
            content_type: String::from_str("Application/json"),
            body: String::from_str("{\"message\": \"Not Found (404)\"}"),
        }
    }

    pub fn not_implemented() -> (r: HttpResponse)
        ensures
            r.status == 401,
            r.content_type@ == "Application/json"@,
            r.body@ == "{\"message\": \"Not Implemented Yet (401)\"}"@,
    {
        HttpResponse {
            status: 401,
            content_type: String::from_str("Application/json"),
            body: String::from_str("{\"message\": \"Not Implemented Yet (401)\"}"),
        }
    }

    pub fn invalid_request() -> (r: HttpResponse)
        ensures
            r.status == 400,
            r.content_type@ == "Application/json"@,
            r.body@ == "{\"message\": \"Invalid Request (400)\"}"@,
    {
        HttpResponse {
            status: 400,
            content_type: String::from_str("Application/json"),
            body: String::from_str("{\"message\": \"Invalid Request (400)\"}"),
        }
    }
}

} // verus!
