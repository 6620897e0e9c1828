//! Failure taxonomy of the gateway and its mapping to HTTP status codes and
//! JSON error bodies. No kind is ever retried by this layer.

use vstd::prelude::*;

use crate::digits::dec_rep;
use crate::digits::u64_to_dec;

verus! {

/// Everything that can stop a request short of, or during, backend work.
///
/// `Unauthorized` covers both credential and authorization denial, each with
/// deliberately minimal detail; `InvalidRequest` covers structural failures
/// and rate limiting; `BackendFault` carries the formatted detail of an
/// unexpected backend failure; `InternalFault` is a gateway-side defect.
#[derive(Clone, Debug, PartialEq, Eq)]
pub enum AppError {
    Unauthorized(String),
    InvalidRequest(String),
    BucketNotFound(String),
    ObjectNotFound(String, String),
    BackendFault(String),
    InternalFault(String),
}

/// HTTP status owed to each error kind: not-found 404, unauthorized 401,
/// invalid request 400, backend and internal faults 500.
pub open spec fn spec_status(e: AppError) -> u16 {
    match e {
        AppError::Unauthorized(_) => 401,
        AppError::InvalidRequest(_) => 400,
        AppError::BucketNotFound(_) => 404,
        AppError::ObjectNotFound(_, _) => 404,
        AppError::BackendFault(_) => 500,
        AppError::InternalFault(_) => 500,
    }
}

/// Message shown to the caller for each error kind.
pub open spec fn spec_message(e: AppError) -> Seq<char> {
    match e {
        AppError::Unauthorized(m) => m@,
        AppError::InvalidRequest(m) => m@,
        AppError::BucketNotFound(b) => "Bucket not found: "@ + b@,
        AppError::ObjectNotFound(b, k) => "Object not found: "@ + b@ + "/"@ + k@,
        AppError::BackendFault(m) => m@,
        AppError::InternalFault(m) => m@,
    }
}

/// JSON error body: `{"error": "<message>", "status": <code>}`.
pub open spec fn spec_body_json(e: AppError) -> Seq<char> {
    "{\"error\": \""@ + spec_message(e) + "\", \"status\": "@ + dec_rep(spec_status(e) as nat)
        + "}"@
}

impl AppError {
    /// HTTP status for this error.
    pub fn status_code(&self) -> (code: u16)
        ensures
            code == spec_status(*self),
    {
        match self {
            AppError::Unauthorized(_) => 401,
            AppError::InvalidRequest(_) => 400,
            AppError::BucketNotFound(_) => 404,
            AppError::ObjectNotFound(_, _) => 404,
            AppError::BackendFault(_) => 500,
            AppError::InternalFault(_) => 500,
        }
    }

    /// Caller-visible message for this error.
    pub fn message(&self) -> (msg: String)
        ensures
            msg@ == spec_message(*self),
    {
        match self {
            AppError::Unauthorized(m) => m.clone(),
            AppError::InvalidRequest(m) => m.clone(),
            AppError::BucketNotFound(b) => {
                let mut msg = String::from_str("Bucket not found: ");
                msg.append(b.as_str());
                msg
            },
            AppError::ObjectNotFound(b, k) => {
                let mut msg = String::from_str("Object not found: ");
                msg.append(b.as_str());
                msg.append("/");
                msg.append(k.as_str());
                proof {
                    assert(msg@ =~= spec_message(*self));
                }
                msg
            },
            AppError::BackendFault(m) => m.clone(),
            AppError::InternalFault(m) => m.clone(),
        }
    }

    /// JSON body carried by the error response, with matching status.
    pub fn body_json(&self) -> (body: String)
        ensures
            body@ == spec_body_json(*self),
    {
        let mut body = String::from_str("{\"error\": \"");
        let msg = self.message();
        body.append(msg.as_str());
        body.append("\", \"status\": ");
        let code: u16 = self.status_code();
        let dec = u64_to_dec(code as u64);
        body.append(dec.as_str());
        body.append("}");
        proof {
            assert(body@ =~= spec_body_json(*self));
        }
        body
    }
}

} // verus!
