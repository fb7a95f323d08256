//! HTTP status codes as plain integers with their class predicates.

use vstd::prelude::*;

verus! {

/// An HTTP status code. Every value handed out by this module lies in
/// `100..=999`, the range a status line can carry.
#[derive(Clone, Copy, Debug, PartialEq, Eq, Structural)]
pub struct StatusCode {
    pub code: u16,
}

impl StatusCode {
    /// The code fits a status line.
    pub open spec fn wf(self) -> bool {
        100 <= self.code <= 999
    }

    /// The code announces a failure caused by the request (`4xx`).
    pub open spec fn client_error(self) -> bool {
        400 <= self.code <= 499
    }

    /// The code announces a failure caused by the service (`5xx`).
    pub open spec fn server_error(self) -> bool {
        500 <= self.code <= 599
    }

    /// Accepts exactly the codes in `100..=999`.
    pub fn from_u16(code: u16) -> (r: Option<StatusCode>)
        ensures
            r is Some <==> 100 <= code <= 999,
            r is Some ==> r->0.code == code && r->0.wf(),
    {
        if 100 <= code && code <= 999 {
            Some(StatusCode { code })
        } else {
            None
        }
    }

    pub fn as_u16(self) -> (r: u16)
        ensures
            r == self.code,
    {
        self.code
    }

    pub fn is_client_error(self) -> (r: bool)
        ensures
            r == self.client_error(),
    {
        400 <= self.code && self.code <= 499
    }

    pub fn is_server_error(self) -> (r: bool)
        ensures
            r == self.server_error(),
    {
        500 <= self.code && self.code <= 599
    }

    /// `200 OK`.
    pub fn ok() -> (r: StatusCode)
        ensures
            r.code == 200,
    {
        StatusCode { code: 200 }
    }

    /// `403 Forbidden`.
    pub fn forbidden() -> (r: StatusCode)
        ensures
            r.code == 403,
    {
        StatusCode { code: 403 }
    }

    /// `404 Not Found`.
    pub fn not_found() -> (r: StatusCode)
        ensures
            r.code == 404,
    {
        StatusCode { code: 404 }
    }

    /// `500 Internal Server Error`.
    pub fn internal_server_error() -> (r: StatusCode)
        ensures
            r.code == 500,
    {
        StatusCode { code: 500 }
    }

    /// `503 Service Unavailable`.
    pub fn service_unavailable() -> (r: StatusCode)
        ensures
            r.code == 503,
    {
        StatusCode { code: 503 }
    }

    /// `504 Gateway Timeout`.
    pub fn gateway_timeout() -> (r: StatusCode)
        ensures
            r.code == 504,
    {
        StatusCode { code: 504 }
    }

    /// The code followed by its reason phrase, as a log line shows it.
    pub fn to_string(&self) -> (s: String)
        requires
            self.wf(),
        ensures
            s@ == status_display(self.code),
    {
        display(self.code)
    }
}

/// What `Display` of `http::StatusCode` writes for a code: the number, a
/// space and the reason phrase that the `http` crate keeps for it.
pub uninterp spec fn status_display(code: u16) -> Seq<char>;

/// Calls `StatusCode::from_u16` and the `Display` of the status it gives.
/// `from_u16` accepts every code in `100..=999`.
#[verifier::external_body]
fn display(code: u16) -> (s: String)
    requires
        100 <= code <= 999,
    ensures
        s@ == status_display(code),
{
    match axum::http::StatusCode::from_u16(code) {
        Ok(status) => status.to_string(),
        Err(invalid) => invalid.to_string(),
    }
}

} // verus!
