//! The envelope that every JSON response of the service has:
//! `{"status_code": .., "data": .., "error": ..}`.

use vstd::prelude::*;
use vstd::string::StringExecFns;
use crate::types::identifier::Identifier;
use crate::types::status::StatusCode;
use crate::utils::custom_errors::err_response::{Format, RenderedResponse};
use crate::utils::json::{json_string, to_json_string};
use crate::utils::text::{decimal, push_decimal};

verus! {

/// A payload that knows its JSON text.
pub trait JsonBody {
    /// The JSON text of the value.
    spec fn json(&self) -> Seq<char>;

    /// Writes the value as JSON.
    fn to_json(&self) -> (text: String)
        ensures
            text@ == self.json(),
    ;
}

/// The payload of a response that has none. It is written as `null`.
#[derive(Clone, Copy, Debug, PartialEq, Eq, Structural)]
pub struct Unit;

impl JsonBody for Unit {
    open spec fn json(&self) -> Seq<char> {
        "null"@
    }

    fn to_json(&self) -> (text: String) {
        String::from_str("null")
    }
}

/// What a client is told of a failure.
#[derive(Debug)]
pub struct ErrorLog {
    pub message: String,
    pub identifier: Option<String>,
}

/// The envelope. A success carries `data` and no `error`; a failure carries
/// `error` and no `data`.
#[derive(Debug)]
pub struct Response<T> {
    pub status_code: u16,
    pub data: Option<T>,
    pub error: Option<ErrorLog>,
}

/// The envelope of a failure never carries a payload.
pub type ErrResponse = Response<Unit>;

/// The identifier as the envelope holds it.
pub open spec fn identifier_text(identifier: Option<Identifier>) -> Option<Seq<char>> {
    match identifier {
        Some(id) => Some(id.text()),
        None => None,
    }
}

/// A JSON string literal, or `null` where there is no text.
pub open spec fn json_string_or_null(text: Option<Seq<char>>) -> Seq<char> {
    match text {
        Some(t) => json_string(t),
        None => "null"@,
    }
}

/// A JSON text, or `null` where there is none.
pub open spec fn json_or_null(text: Option<Seq<char>>) -> Seq<char> {
    match text {
        Some(t) => t,
        None => "null"@,
    }
}

/// The JSON object for the `error` field.
pub open spec fn error_json(message: Seq<char>, identifier: Option<Seq<char>>) -> Seq<char> {
    "{\"message\":"@ + json_string(message) + ",\"identifier\":"@ + json_string_or_null(
        identifier,
    ) + "}"@
}

/// The JSON object for the whole envelope, from the JSON texts of its parts.
pub open spec fn envelope_json(
    status_code: u16,
    data: Option<Seq<char>>,
    error: Option<Seq<char>>,
) -> Seq<char> {
    "{\"status_code\":"@ + decimal(status_code as nat) + ",\"data\":"@ + json_or_null(data)
        + ",\"error\":"@ + json_or_null(error) + "}"@
}

impl ErrorLog {
    /// The identifier, as text.
    pub open spec fn identifier_view(&self) -> Option<Seq<char>> {
        match self.identifier {
            Some(text) => Some(text@),
            None => None,
        }
    }

    pub open spec fn json(&self) -> Seq<char> {
        error_json(self.message@, self.identifier_view())
    }

    /// Writes the `error` object.
    pub fn to_json(&self) -> (text: String)
        ensures
            text@ == self.json(),
    {
        let mut text = String::from_str("{\"message\":");
        let message = to_json_string(self.message.as_str());
        text.append(message.as_str());
        text.append(",\"identifier\":");
        match &self.identifier {
            Some(id) => {
                let quoted = to_json_string(id.as_str());
                text.append(quoted.as_str());
            },
            None => {
                text.append("null");
            },
        }
        text.append("}");
        text
    }
}

impl<T> Response<T> {
    /// The envelope of a success: status 200, the payload, no error.
    pub fn success(data: T) -> (r: Self)
        ensures
            r.status_code == 200,
            r.data == Some(data),
            r.error is None,
    {
        Response { status_code: 200, data: Some(data), error: None }
    }

    /// The envelope of a failure: the status, no payload, and the message
    /// with the identifier in its textual form, if there is one.
    pub fn error(status_code: StatusCode, message: String, identifier: Option<Identifier>) -> (r:
        Self)
        ensures
            r.status_code == status_code.code,
            r.data is None,
            r.error is Some,
            r.error->0.message == message,
            r.error->0.identifier_view() == identifier_text(identifier),
    {
        let identifier = match identifier {
            Some(id) => Some(id.to_string()),
            None => None,
        };
        Response {
            status_code: status_code.as_u16(),
            data: None,
            error: Some(ErrorLog { message, identifier }),
        }
    }
}

impl<T: JsonBody> Response<T> {
    /// The JSON text of the payload, if there is one.
    pub open spec fn data_json(&self) -> Option<Seq<char>> {
        match self.data {
            Some(data) => Some(data.json()),
            None => None,
        }
    }

    /// The JSON text of the error, if there is one.
    pub open spec fn error_json(&self) -> Option<Seq<char>> {
        match self.error {
            Some(error) => Some(error.json()),
            None => None,
        }
    }

    pub open spec fn json(&self) -> Seq<char> {
        envelope_json(self.status_code, self.data_json(), self.error_json())
    }

    /// Writes the envelope, its fields in the order `status_code`, `data`,
    /// `error`, without any white space.
    pub fn to_json(&self) -> (text: String)
        ensures
            text@ == self.json(),
    {
        let mut text = String::from_str("{\"status_code\":");
        push_decimal(&mut text, self.status_code as u64);
        text.append(",\"data\":");
        match &self.data {
            Some(data) => {
                let json = data.to_json();
                text.append(json.as_str());
            },
            None => {
                text.append("null");
            },
        }
        text.append(",\"error\":");
        match &self.error {
            Some(error) => {
                let json = error.to_json();
                text.append(json.as_str());
            },
            None => {
                text.append("null");
            },
        }
        text.append("}");
        text
    }
}

/// The status under which an envelope is sent: the one it reports, or 500
/// where that is none that a status line can carry.
pub open spec fn sent_status(status_code: u16) -> u16 {
    if 100 <= status_code <= 999 {
        status_code
    } else {
        500
    }
}

impl<T: JsonBody> Response<T> {
    /// The envelope as a response: written as JSON and sent under the
    /// status that it reports.
    pub fn into_response(self) -> (r: RenderedResponse)
        ensures
            r.format == Format::Json,
            r.status_code.code == sent_status(self.status_code),
            r.status_code.wf(),
            r.body@ == self.json(),
            r.minify is None,
    {
        let status_code = match StatusCode::from_u16(self.status_code) {
            Some(status_code) => status_code,
            None => StatusCode::internal_server_error(),
        };
        RenderedResponse { format: Format::Json, status_code, body: self.to_json(), minify: None }
    }
}

impl JsonBody for String {
    open spec fn json(&self) -> Seq<char> {
        json_string(self@)
    }

    fn to_json(&self) -> (text: String) {
        to_json_string(self.as_str())
    }
}

impl JsonBody for bool {
    open spec fn json(&self) -> Seq<char> {
        if *self {
            "true"@
        } else {
            "false"@
        }
    }

    fn to_json(&self) -> (text: String) {
        if *self {
            String::from_str("true")
        } else {
            String::from_str("false")
        }
    }
}

impl JsonBody for u64 {
    open spec fn json(&self) -> Seq<char> {
        decimal(*self as nat)
    }

    fn to_json(&self) -> (text: String) {
        let mut text = String::new();
        push_decimal(&mut text, *self);
        assert(text@ =~= decimal(*self as nat));
        text
    }
}

impl JsonBody for i64 {
    open spec fn json(&self) -> Seq<char> {
        if *self < 0 {
            seq!['-'] + decimal((-(*self as int)) as nat)
        } else {
            decimal(*self as nat)
        }
    }

    fn to_json(&self) -> (text: String) {
        let mut text = String::new();
        if *self < 0 {
            text.push('-');
            let magnitude: u64 = if *self == i64::MIN {
                9223372036854775808
            } else {
                (-*self) as u64
            };
            push_decimal(&mut text, magnitude);
        } else {
            push_decimal(&mut text, *self as u64);
        }
        assert(text@ =~= self.json());
        text
    }
}

impl<T> From<T> for Response<T> {
    fn from(data: T) -> (r: Self) {
        Response::success(data)
    }
}

impl<T> vstd::std_specs::convert::FromSpecImpl<T> for Response<T> {
    open spec fn obeys_from_spec() -> bool {
        true
    }

    open spec fn from_spec(data: T) -> Self {
        Response { status_code: 200, data: Some(data), error: None }
    }
}

} // verus!
