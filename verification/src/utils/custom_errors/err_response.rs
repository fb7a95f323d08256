//! What a client receives for a failure: a page or a JSON envelope, chosen
//! by the group of routes and never by the request.

use std::marker::PhantomData;
use vstd::prelude::*;
use crate::types::api::{envelope_json, error_json, identifier_text, Response, Unit};
use crate::types::identifier::{is_uuid_text, lemma_text_is_plain, lemma_text_is_uuid};
use crate::types::status::{status_display, StatusCode};
use crate::utils::custom_errors::app_error::{
    classified, internal_message, overloaded_message, AppError, Failure, Severity,
};
use crate::utils::json::{json_string, lemma_plain_text_unchanged, needs_escape};
use crate::utils::text::{decimal, lemma_occurs_in_middle, occurs_in};
use crate::views::error::{error_entries, error_page};
use crate::views::{MinifyConfig, Page, Templates};

verus! {

/// The form of a response body.
#[derive(Clone, Copy, Debug, PartialEq, Eq, Structural)]
pub enum Format {
    Html,
    Json,
}

/// Marks the routes that answer with pages.
#[derive(Clone, Copy, Debug)]
pub struct ViewKind;

/// Marks the routes that answer with JSON.
#[derive(Clone, Copy, Debug)]
pub struct JsonKind;

/// A response as it is handed to the transport.
#[derive(Debug)]
pub struct RenderedResponse {
    pub format: Format,
    pub status_code: StatusCode,
    pub body: String,
    /// The switches with which the body is to be minified before it is
    /// sent, if it is to be minified.
    pub minify: Option<MinifyConfig>,
}

/// A failure on its way to the client, in the form that `Kind` names.
pub struct ErrResponse<Kind> {
    pub source: AppError,
    pub kind: PhantomData<Kind>,
}

pub type ViewErrResponse = ErrResponse<ViewKind>;

pub type ApiErrResponse = ErrResponse<JsonKind>;

/// The JSON body for a failure with these parts.
pub open spec fn error_body(source: AppError) -> Seq<char> {
    envelope_json(
        source.status_code.code,
        None,
        Some(error_json(source.message@, identifier_text(source.identifier))),
    )
}

impl<Kind> ErrResponse<Kind> {
    pub fn new(source: AppError) -> (r: Self)
        ensures
            r.source == source,
    {
        ErrResponse { source, kind: PhantomData }
    }
}

impl ErrResponse<JsonKind> {
    /// The envelope of the failure under the failure's status. The body
    /// holds the message and the identifier and nothing of the cause.
    pub fn into_response(self) -> (r: RenderedResponse)
        ensures
            r.format == Format::Json,
            r.status_code == self.source.status_code,
            r.body@ == error_body(self.source),
    {
        let AppError { message, status_code, identifier, .. } = self.source;
        let envelope: Response<Unit> = Response::error(status_code, message, identifier);
        RenderedResponse {
            format: Format::Json,
            status_code,
            body: envelope.to_json(),
            minify: None,
        }
    }
}

impl ErrResponse<ViewKind> {
    /// The error page under the failure's status, rendered at `curr_date`
    /// with the status, the message and the identifier, and without a way
    /// back. Where the page cannot be rendered the body is the fixed text.
    pub fn into_response(self, templates: &Templates, curr_date: String) -> (r: RenderedResponse)
        ensures
            r.format == Format::Html,
            r.status_code == self.source.status_code,
            error_page(
                (Page { text: r.body, minify: r.minify }),
                templates.page(
                    "error.html"@,
                    error_entries(
                        self.source.status_code.code,
                        self.source.message@,
                        identifier_text(self.source.identifier),
                        false,
                        curr_date@,
                    ),
                ),
                templates.dev(),
            ),
    {
        let AppError { message, status_code, identifier, .. } = self.source;
        let id = match identifier {
            Some(id) => Some(id.to_string()),
            None => None,
        };
        let page = crate::views::error::render(
            templates,
            status_code.as_u16(),
            message,
            id,
            false,
            curr_date,
        );
        RenderedResponse { format: Format::Html, status_code, body: page.text, minify: page.minify }
    }
}

/// The body that a client receives when load is shed.
pub open spec fn overloaded_body() -> Seq<char> {
    "{\"status_code\":503,\"data\":null,\"error\":{\"message\":\"Service is overloaded, try again later.\",\"identifier\":null}}"@
}

/// A refused request is answered under the status of its refusal and
/// without an identifier: where that status is one of the `4xx`, so is the
/// response's, and the `identifier` of its body is `null`.
pub proof fn lemma_rejection_response(status_code: StatusCode, body_text: String, record: AppError)
    requires
        classified(Failure::Rejected { status_code, body_text }, record),
        status_code.client_error(),
    ensures
        record.status_code.client_error(),
        error_body(record) == envelope_json(
            status_code.code,
            None,
            Some(
                "{\"message\":"@ + json_string(body_text@) + ",\"identifier\":"@ + "null"@
                    + "}"@,
            ),
        ),
{
}

/// An unclassified failure is answered with status 500 and the generic
/// message. The identifier in the body is a syntactically valid UUID,
/// written as it is, and the same text stands in the line that the log
/// receives under `ERROR`. The cause stands in that line and not in the body.
pub proof fn lemma_internal_failure_response(cause: String, record: AppError)
    requires
        classified(Failure::Other(cause), record),
    ensures
        record.status_code.code == 500,
        record.severity == Severity::ERROR,
        record.identifier is Some,
        is_uuid_text(record.identifier->0.text()),
        error_body(record) == envelope_json(
            500,
            None,
            Some(
                "{\"message\":"@ + json_string(internal_message()) + ",\"identifier\":"@ + (seq![
                    '"',
                ] + record.identifier->0.text() + seq!['"']) + "}"@,
            ),
        ),
        occurs_in(record.identifier->0.text(), record.log_line_text()),
        occurs_in(cause@, record.log_line_text()),
{
    let id = record.identifier->0;
    lemma_text_is_uuid(id.bits);
    lemma_text_is_plain(id.bits);
    lemma_plain_text_unchanged(id.text());
    let start = "Status Code: "@ + status_display(record.status_code.code) + "."@;
    let head = start + " Identifier: "@;
    let middle = "."@ + " "@ + record.message@ + "."@;
    let tail = middle + " Source Error: "@ + cause@;
    assert(record.log_line_text() =~= head + id.text() + tail);
    lemma_occurs_in_middle(head, id.text(), tail);
    let before = head + id.text() + middle + " Source Error: "@;
    assert(record.log_line_text() =~= before + cause@ + Seq::<char>::empty());
    lemma_occurs_in_middle(before, cause@, Seq::empty());
}

/// The response to shed load is one fixed text under status 503, with the
/// generic message and without an identifier.
pub proof fn lemma_overloaded_response(record: AppError)
    requires
        classified(Failure::Overloaded, record),
    ensures
        record.status_code.code == 503,
        error_body(record) == overloaded_body(),
{
    let message = overloaded_message();
    reveal_strlit("Service is overloaded, try again later.");
    assert forall|i: int| 0 <= i < message.len() implies !needs_escape(#[trigger] message[i]) by {
    }
    lemma_plain_text_unchanged(message);
    reveal_with_fuel(decimal, 3);
    assert(decimal(503) =~= seq!['5', '0', '3']);
    reveal_strlit("{\"status_code\":");
    reveal_strlit(",\"data\":");
    reveal_strlit(",\"error\":");
    reveal_strlit("{\"message\":");
    reveal_strlit(",\"identifier\":");
    reveal_strlit("null");
    reveal_strlit("}");
    reveal_strlit(
        "{\"status_code\":503,\"data\":null,\"error\":{\"message\":\"Service is overloaded, try again later.\",\"identifier\":null}}",
    );
    assert(error_body(record) =~= overloaded_body());
}

/// Rendering reads the status, the message and the identifier and nothing
/// else: two failures that agree in these are written alike, to the last
/// character.
pub proof fn lemma_render_is_repeatable(first: AppError, second: AppError)
    requires
        first.status_code == second.status_code,
        first.message@ == second.message@,
        first.identifier == second.identifier,
    ensures
        error_body(first) == error_body(second),
{
}

} // verus!
