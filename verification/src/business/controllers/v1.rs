//! The handler that hands its input back.

use vstd::prelude::*;
use vstd::string::StringExecFns;
use crate::types::api::{JsonBody, Response};
use crate::utils::json::{json_string, to_json_string};

verus! {

/// What the handler is sent.
#[derive(Clone, Debug)]
pub struct Input {
    pub example_input: String,
}

/// What the handler answers.
#[derive(Clone, Debug)]
pub struct Output {
    pub example_output: String,
}

impl JsonBody for Output {
    open spec fn json(&self) -> Seq<char> {
        "{\"example_output\":"@ + json_string(self.example_output@) + "}"@
    }

    fn to_json(&self) -> (text: String) {
        let mut text = String::from_str("{\"example_output\":");
        let value = to_json_string(self.example_output.as_str());
        text.append(value.as_str());
        text.append("}");
        text
    }
}

/// Answers with the text that was sent, in the envelope of a success.
pub fn get(json: Input) -> (r: Response<Output>)
    ensures
        r.status_code == 200,
        r.data is Some,
        r.data->0.example_output == json.example_input,
        r.error is None,
{
    Response::success(Output { example_output: json.example_input })
}

} // verus!
