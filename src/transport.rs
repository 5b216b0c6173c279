//! What one delivery posts, and how its HTTP status is judged.
use vstd::prelude::*;
use vstd::string::*;
use crate::clef::{clef_body, to_clef};
use crate::codec::Envelope;

verus! {

/// Header that carries the API key.
pub const API_KEY_HEADER: &'static str = "X-Seq-ApiKey";

/// Content type of every request body.
pub const CONTENT_TYPE: &'static str = "application/json";

/// One POST to the ingestion endpoint.
pub struct Request {
    pub url: String,
    pub api_key: String,
    pub body: String,
}

impl Request {
    pub fn for_envelope(url: &str, api_key: &str, e: &Envelope) -> (r: Request)
        ensures
            r.url@ == url@,
            r.api_key@ == api_key@,
            r.body@ == clef_body(*e),
    {
        Request { url: String::from_str(url), api_key: String::from_str(api_key), body: to_clef(e) }
    }
}

/// Why a delivery failed: a status outside the success range, or a failure
/// below HTTP (connection refused, timeout, TLS) described in words.
pub enum DeliveryError {
    Status(u16),
    Transport(String),
}

pub open spec fn is_success(status: u16) -> bool {
    200 <= status && status <= 299
}

/// Judges the status of a response: any 2xx is a success.
pub fn check_status(status: u16) -> (r: Result<(), DeliveryError>)
    ensures
        r is Ok <==> is_success(status),
        r is Err ==> (r->Err_0 is Status && r->Err_0->Status_0 == status),
{
    if 200 <= status && status <= 299 {
        Ok(())
    } else {
        Err(DeliveryError::Status(status))
    }
}

} // verus!
