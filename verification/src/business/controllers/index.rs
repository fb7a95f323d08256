//! The handler of the landing page.

use vstd::prelude::*;
use crate::types::status::StatusCode;
use crate::utils::custom_errors::app_error::{classified, AppError, Failure};
use crate::utils::custom_errors::err_response::{
    ErrResponse, Format, RenderedResponse, ViewErrResponse,
};
use crate::views::index::index_page;
use crate::views::{minify_for, Page, RenderError, Templates};

verus! {

/// What the handler answers for what became of the page: the page under
/// status 200, or the catch-all failure with the words of the renderer as
/// its cause, to be shown as the error page.
pub fn respond(rendered: Result<Page, RenderError>) -> (r: Result<
    RenderedResponse,
    ViewErrResponse,
>)
    ensures
        rendered is Ok ==> r is Ok && r->Ok_0.format == Format::Html && r->Ok_0.status_code.code
            == 200 && r->Ok_0.body == rendered->Ok_0.text && r->Ok_0.minify
            == rendered->Ok_0.minify,
        rendered is Err ==> r is Err && r->Err_0.source.source is Some
            && r->Err_0.source.source->0@ == rendered->Err_0.description() && classified(
            Failure::Other(r->Err_0.source.source->0),
            r->Err_0.source,
        ),
{
    match rendered {
        Ok(page) => Ok(
            RenderedResponse {
                format: Format::Html,
                status_code: StatusCode::ok(),
                body: page.text,
                minify: page.minify,
            },
        ),
        Err(error) => Err(ErrResponse::new(AppError::classify(Failure::Other(error.to_string())))),
    }
}

/// Answers with the landing page under status 200. A failure to render it
/// is a failure of the service, with the engine's words as its cause.
pub fn get(templates: &Templates) -> (r: Result<RenderedResponse, ViewErrResponse>)
    ensures
        match index_page(*templates) {
            Ok(page) => r is Ok && r->Ok_0.format == Format::Html && r->Ok_0.status_code.code
                == 200 && r->Ok_0.body@ == page && r->Ok_0.minify == minify_for(templates.dev()),
            Err(words) => r is Err && r->Err_0.source.source is Some
                && r->Err_0.source.source->0@ == words && classified(
                Failure::Other(r->Err_0.source.source->0),
                r->Err_0.source,
            ),
        },
{
    respond(crate::views::index::render(templates))
}

} // verus!
