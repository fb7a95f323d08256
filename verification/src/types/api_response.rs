//! The envelope that stamps a failure with the time at which it was
//! reported: `{"data": .., "error": {"message": .., "identifier": .., "time": ..}}`.

use vstd::prelude::*;
use vstd::string::StringExecFns;
use crate::types::api::{identifier_text, json_or_null, json_string_or_null, JsonBody};
use crate::types::identifier::Identifier;
use crate::utils::json::{json_string, to_json_string};

verus! {

/// What a client is told of a failure, and when it was reported.
#[derive(Debug)]
pub struct ApiErrorLog {
    pub message: String,
    pub identifier: Option<String>,
    pub time: String,
}

/// A success carries `data` and no `error`; a failure carries `error` and no
/// `data`.
#[derive(Debug)]
pub struct ApiResponse<T> {
    pub data: Option<T>,
    pub error: Option<ApiErrorLog>,
}

/// The `error` object up to the value of its `time` field.
pub open spec fn api_error_head(message: Seq<char>, identifier: Option<Seq<char>>) -> Seq<char> {
    "{\"message\":"@ + json_string(message) + ",\"identifier\":"@ + json_string_or_null(
        identifier,
    ) + ",\"time\":"@
}

/// The JSON object for the `error` field.
pub open spec fn api_error_json(
    message: Seq<char>,
    identifier: Option<Seq<char>>,
    time: Seq<char>,
) -> Seq<char> {
    api_error_head(message, identifier) + json_string(time) + "}"@
}

/// The JSON object for the whole envelope, from the JSON texts of its parts.
pub open spec fn api_envelope_json(data: Option<Seq<char>>, error: Option<Seq<char>>) -> Seq<
    char,
> {
    "{\"data\":"@ + json_or_null(data) + ",\"error\":"@ + json_or_null(error) + "}"@
}

/// The text has the shape of an instant in UTC written to the microsecond:
/// at least 27 characters, of which the last eight are a point, six digits
/// and `Z`.
pub open spec fn is_utc_stamp(time: Seq<char>) -> bool {
    &&& time.len() >= 27
    &&& time[time.len() - 1] == 'Z'
    &&& time[time.len() - 8] == '.'
    &&& forall|k: int| 2 <= k <= 7 ==> '0' <= #[trigger] time[time.len() - k] <= '9'
}

/// Reads the clock through `chrono::Utc::now` and writes the instant with
/// `to_rfc3339_opts`, microseconds and `Z`. The text differs from call to
/// call; its shape does not.
#[verifier::external_body]
fn utc_now() -> (time: String)
    ensures
        is_utc_stamp(time@),
{
    chrono::Utc::now().to_rfc3339_opts(chrono::SecondsFormat::Micros, true)
}

impl ApiErrorLog {
    /// The identifier, as text.
    pub open spec fn identifier_view(&self) -> Option<Seq<char>> {
        match self.identifier {
            Some(text) => Some(text@),
            None => None,
        }
    }

    pub open spec fn json(&self) -> Seq<char> {
        api_error_json(self.message@, self.identifier_view(), self.time@)
    }

    /// Writes the `error` object.
    pub fn to_json(&self) -> (text: String)
        ensures
            text@ == self.json(),
    {
        let mut text = String::from_str("{\"message\":");
        let message = to_json_string(self.message.as_str());
        text.append(message.as_str());
        text.append(",\"identifier\":");
        match &self.identifier {
            Some(id) => {
                let quoted = to_json_string(id.as_str());
                text.append(quoted.as_str());
            },
            None => {
                text.append("null");
            },
        }
        text.append(",\"time\":");
        let time = to_json_string(self.time.as_str());
        text.append(time.as_str());
        text.append("}");
        text
    }
}

impl<T> ApiResponse<T> {
    /// The envelope of a success: the payload and no error.
    pub fn success(data: T) -> (r: Self)
        ensures
            r.data == Some(data),
            r.error is None,
    {
        ApiResponse { data: Some(data), error: None }
    }

    /// The envelope of a failure reported at `time`.
    pub fn error_at(message: String, identifier: Option<Identifier>, time: String) -> (r: Self)
        ensures
            r.data is None,
            r.error is Some,
            r.error->0.message == message,
            r.error->0.identifier_view() == identifier_text(identifier),
            r.error->0.time == time,
    {
        let identifier = match identifier {
            Some(id) => Some(id.to_string()),
            None => None,
        };
        ApiResponse { data: None, error: Some(ApiErrorLog { message, identifier, time }) }
    }

    /// The envelope of a failure reported now.
    pub fn error(message: String, identifier: Option<Identifier>) -> (r: Self)
        ensures
            r.data is None,
            r.error is Some,
            r.error->0.message == message,
            r.error->0.identifier_view() == identifier_text(identifier),
            is_utc_stamp(r.error->0.time@),
    {
        ApiResponse::error_at(message, identifier, utc_now())
    }
}

impl<T: JsonBody> ApiResponse<T> {
    /// The JSON text of the payload, if there is one.
    pub open spec fn data_json(&self) -> Option<Seq<char>> {
        match self.data {
            Some(data) => Some(data.json()),
            None => None,
        }
    }

    /// The JSON text of the error, if there is one.
    pub open spec fn error_json(&self) -> Option<Seq<char>> {
        match self.error {
            Some(error) => Some(error.json()),
            None => None,
        }
    }

    pub open spec fn json(&self) -> Seq<char> {
        api_envelope_json(self.data_json(), self.error_json())
    }

    /// Writes the envelope, its fields in the order `data`, `error`, without
    /// any white space.
    pub fn to_json(&self) -> (text: String)
        ensures
            text@ == self.json(),
    {
        let mut text = String::from_str("{\"data\":");
        match &self.data {
            Some(data) => {
                let json = data.to_json();
                text.append(json.as_str());
            },
            None => {
                text.append("null");
            },
        }
        text.append(",\"error\":");
        match &self.error {
            Some(error) => {
                let json = error.to_json();
                text.append(json.as_str());
            },
            None => {
                text.append("null");
            },
        }
        text.append("}");
        text
    }
}

impl<T> From<T> for ApiResponse<T> {
    fn from(data: T) -> (r: Self) {
        ApiResponse::success(data)
    }
}

impl<T> vstd::std_specs::convert::FromSpecImpl<T> for ApiResponse<T> {
    open spec fn obeys_from_spec() -> bool {
        true
    }

    open spec fn from_spec(data: T) -> Self {
        ApiResponse { data: Some(data), error: None }
    }
}

/// Two failures that differ only in the time of their report are written
/// alike but for the value of the `time` field: the text before it and the
/// text behind it are the same.
pub proof fn lemma_same_but_for_time(
    message: Seq<char>,
    identifier: Option<Seq<char>>,
    first: Seq<char>,
    second: Seq<char>,
)
    ensures
        api_envelope_json(None, Some(api_error_json(message, identifier, first)))
            == "{\"data\":null,\"error\":"@ + api_error_head(message, identifier) + json_string(
            first,
        ) + "}}"@,
        api_envelope_json(None, Some(api_error_json(message, identifier, second)))
            == "{\"data\":null,\"error\":"@ + api_error_head(message, identifier) + json_string(
            second,
        ) + "}}"@,
{
    reveal_strlit("{\"data\":");
    reveal_strlit("null");
    reveal_strlit(",\"error\":");
    reveal_strlit("}");
    reveal_strlit("}}");
    reveal_strlit("{\"data\":null,\"error\":");
    let head = api_error_head(message, identifier);
    assert("{\"data\":"@ + "null"@ + ",\"error\":"@ =~= "{\"data\":null,\"error\":"@);
    assert("}"@ + "}"@ =~= "}}"@);
    assert(api_envelope_json(None, Some(api_error_json(message, identifier, first)))
        =~= "{\"data\":null,\"error\":"@ + head + json_string(first) + "}}"@);
    assert(api_envelope_json(None, Some(api_error_json(message, identifier, second)))
        =~= "{\"data\":null,\"error\":"@ + head + json_string(second) + "}}"@);
}

} // verus!
