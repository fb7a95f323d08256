//! The handler that checks its input and marks the caller with a cookie.

use vstd::prelude::*;
use vstd::string::StringExecFns;
use validator::ValidateLength;
use crate::types::api::{JsonBody, Response, Unit};
use crate::types::status::StatusCode;
use crate::utils::json::{json_string, to_json_string};

verus! {

/// The least number of characters of an accepted text.
pub const MIN_TEXT_LEN: u64 = 6;

/// The greatest number of characters of an accepted text.
pub const MAX_TEXT_LEN: u64 = 50;

/// For how many seconds the cookie is kept: thirty days.
pub const COOKIE_MAX_AGE_SECS: u64 = 2_592_000;

/// What the handler is sent.
#[derive(Clone, Debug)]
pub struct Signature {
    pub example_text: String,
}

/// What the handler answers on success.
#[derive(Clone, Debug)]
pub struct Return {
    pub example_return: String,
}

impl JsonBody for Return {
    open spec fn json(&self) -> Seq<char> {
        "{\"example_return\":"@ + json_string(self.example_return@) + "}"@
    }

    fn to_json(&self) -> (text: String) {
        let mut text = String::from_str("{\"example_return\":");
        let value = to_json_string(self.example_return.as_str());
        text.append(value.as_str());
        text.append("}");
        text
    }
}

/// To which requests from other sites a cookie is attached.
#[derive(Clone, Copy, Debug, PartialEq, Eq, Structural)]
pub enum SameSite {
    /// To none.
    Strict,
    /// To navigations only.
    Lax,
    /// To all.
    Unrestricted,
}

/// A cookie to be set, with the attributes that the handler chooses.
#[derive(Clone, Debug)]
pub struct CookieSpec {
    pub name: String,
    pub value: String,
    pub domain: String,
    pub path: String,
    pub secure: bool,
    pub http_only: bool,
    pub max_age_secs: u64,
    pub same_site: SameSite,
}

/// A response header to be set.
#[derive(Clone, Debug)]
pub struct HeaderSpec {
    pub name: String,
    pub value: String,
}

/// What the handler decides.
#[derive(Debug)]
pub enum Reply {
    /// The caller already carries the cookie: status 403 and no body.
    Forbidden,
    /// The input failed validation: status 200 and the envelope of a
    /// failure that lists what is wrong.
    Invalid(Response<Unit>),
    /// The input was accepted: status 200, the cookie, the header and the
    /// envelope of a success.
    Accepted { cookie: CookieSpec, header: HeaderSpec, body: Response<Return> },
}

/// Calls `ValidateLength::validate_length` of `validator` on a text with a
/// least and a greatest length and no exact one: the number of characters
/// of the text lies between the two, both included.
#[verifier::external_body]
fn length_between(text: &str, min: u64, max: u64) -> (r: bool)
    ensures
        r == (min <= text@.len() <= max),
{
    text.validate_length(Some(min), Some(max), None)
}

impl Signature {
    /// The text has between six and fifty characters.
    pub open spec fn valid(&self) -> bool {
        MIN_TEXT_LEN <= self.example_text@.len() <= MAX_TEXT_LEN
    }

    /// Checks the length of the text, counted in characters.
    pub fn validate(&self) -> (r: bool)
        ensures
            r == self.valid(),
    {
        length_between(self.example_text.as_str(), MIN_TEXT_LEN, MAX_TEXT_LEN)
    }
}

/// What a caller reads whose text has the wrong length.
pub open spec fn validation_message() -> Seq<char> {
    "Whoops, validation errors! example_text is 6 to 50 characters!\n"@
}

/// Decides the answer to a request. A caller that carries the cookie is
/// refused before the input is looked at. An input of the wrong length is
/// reported in an envelope, without an identifier. Any other input is
/// accepted: the caller gets the cookie for `domain`, valid for thirty days
/// on every path and attached to requests from every site, a header, and
/// the word of success.
pub fn get(has_cookie: bool, json: Signature, domain: &str) -> (r: Reply)
    ensures
        has_cookie ==> r is Forbidden,
        !has_cookie && !json.valid() ==> r is Invalid && r->Invalid_0.status_code == 200
            && r->Invalid_0.data is None && r->Invalid_0.error is Some
            && r->Invalid_0.error->0.message@ == validation_message()
            && r->Invalid_0.error->0.identifier is None,
        !has_cookie && json.valid() ==> r is Accepted && r->cookie.name@ == "example_cookie"@
            && r->cookie.value@ == "example"@ && r->cookie.domain@ == domain@ && r->cookie.path@
            == "/"@ && !r->cookie.secure && !r->cookie.http_only && r->cookie.max_age_secs
            == COOKIE_MAX_AGE_SECS && r->cookie.same_site == SameSite::Unrestricted
            && r->header.name@ == "Example-Header"@ && r->header.value@
            == "example"@ && r->body.status_code == 200 && r->body.error is None && r->body.data
            is Some && r->body.data->0.example_return@ == "Success!"@,
{
    if has_cookie {
        return Reply::Forbidden;
    }
    if !json.validate() {
        let message = String::from_str(
            "Whoops, validation errors! example_text is 6 to 50 characters!\n",
        );
        return Reply::Invalid(Response::error(StatusCode::ok(), message, None));
    }
    let cookie = CookieSpec {
        name: String::from_str("example_cookie"),
        value: String::from_str("example"),
        domain: String::from_str(domain),
        path: String::from_str("/"),
        secure: false,
        http_only: false,
        max_age_secs: COOKIE_MAX_AGE_SECS,
        same_site: SameSite::Unrestricted,
    };
    let header = HeaderSpec {
        name: String::from_str("Example-Header"),
        value: String::from_str("example"),
    };
    let body = Response::success(Return { example_return: String::from_str("Success!") });
    Reply::Accepted { cookie, header, body }
}

} // verus!
