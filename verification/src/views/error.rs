//! The page shown for a failure.

use vstd::prelude::*;
use vstd::string::StringExecFns;
use crate::views::{
    minify_for, views_of, AppTemplate, Entry, Field, FieldValue, Page, RenderError, Templates,
};

verus! {

/// The variables of the error page.
#[derive(Clone, Debug, Default)]
pub struct Template {
    pub message: String,
    pub status_code: u16,
    pub id: Option<String>,
    pub curr_date: String,
    pub show_back_anchor: bool,
}

/// The identifier as the template sees it: its text, or nothing.
pub open spec fn id_value(id: Option<String>) -> FieldValue {
    match id {
        Some(text) => FieldValue::Text(text@),
        None => FieldValue::Missing,
    }
}

/// What is shown when the error page itself cannot be rendered.
pub open spec fn fallback_page() -> Seq<char> {
    "An error has ocurred while rendering the Error Page. Whoops..."@
}

impl AppTemplate for Template {
    open spec fn entries(&self) -> Seq<(Seq<char>, FieldValue)> {
        seq![
            ("message"@, FieldValue::Text(self.message@)),
            ("status_code"@, FieldValue::Number(self.status_code as u64)),
            ("id"@, id_value(self.id)),
            ("curr_date"@, FieldValue::Text(self.curr_date@)),
            ("show_back_anchor"@, FieldValue::Flag(self.show_back_anchor)),
        ]
    }

    fn to_entries(&self) -> (entries: Vec<Entry>) {
        let id = match &self.id {
            Some(text) => Field::Text(text.clone()),
            None => Field::Missing,
        };
        let mut entries = Vec::new();
        entries.push(
            Entry { name: String::from_str("message"), value: Field::Text(self.message.clone()) },
        );
        entries.push(
            Entry {
                name: String::from_str("status_code"),
                value: Field::Number(self.status_code as u64),
            },
        );
        entries.push(Entry { name: String::from_str("id"), value: id });
        entries.push(
            Entry {
                name: String::from_str("curr_date"),
                value: Field::Text(self.curr_date.clone()),
            },
        );
        entries.push(
            Entry {
                name: String::from_str("show_back_anchor"),
                value: Field::Flag(self.show_back_anchor),
            },
        );
        assert(views_of(entries@) =~= self.entries());
        entries
    }
}

/// The variables of an error page with these parts.
pub open spec fn error_entries(
    status_code: u16,
    message: Seq<char>,
    id: Option<Seq<char>>,
    show_back_anchor: bool,
    curr_date: Seq<char>,
) -> Seq<(Seq<char>, FieldValue)> {
    seq![
        ("message"@, FieldValue::Text(message)),
        ("status_code"@, FieldValue::Number(status_code as u64)),
        (
            "id"@,
            match id {
                Some(text) => FieldValue::Text(text),
                None => FieldValue::Missing,
            },
        ),
        ("curr_date"@, FieldValue::Text(curr_date)),
        ("show_back_anchor"@, FieldValue::Flag(show_back_anchor)),
    ]
}

/// `page` is the error page for what the engine made of `error.html`: the
/// engine's page, to be minified outside development, or the fixed text
/// where the engine failed, which goes out as it is.
pub open spec fn error_page(page: Page, answer: Result<Seq<char>, Seq<char>>, is_dev: bool) -> bool {
    match answer {
        Ok(text) => page.text@ == text && page.minify == minify_for(is_dev),
        Err(_) => page.text@ == fallback_page() && page.minify is None,
    }
}

/// The text of an optional text.
pub open spec fn text_of(text: Option<String>) -> Option<Seq<char>> {
    match text {
        Some(text) => Some(text@),
        None => None,
    }
}

/// The page that is sent: the rendered one, or the fixed text where the
/// rendering failed. A failure of the error page goes no further.
pub fn page_or_fallback(rendered: Result<Page, RenderError>) -> (page: Page)
    ensures
        rendered is Ok ==> page == rendered->Ok_0,
        rendered is Err ==> page.text@ == fallback_page() && page.minify is None,
{
    match rendered {
        Ok(page) => page,
        Err(_) => Page {
            text: String::from_str("An error has ocurred while rendering the Error Page. Whoops..."),
            minify: None,
        },
    }
}

/// Renders `error.html` with the status, the message, the identifier if
/// there is one, and the time of rendering. This never fails: where the
/// template is missing or cannot be rendered, the fixed text is the page.
pub fn render(
    templates: &Templates,
    status_code: u16,
    message: String,
    id: Option<String>,
    show_back_anchor: bool,
    curr_date: String,
) -> (page: Page)
    ensures
        error_page(
            page,
            templates.page(
                "error.html"@,
                error_entries(status_code, message@, text_of(id), show_back_anchor, curr_date@),
            ),
            templates.dev(),
        ),
{
    let template = Template { message, status_code, id, curr_date, show_back_anchor };
    assert(template.entries() =~= error_entries(
        status_code,
        message@,
        text_of(id),
        show_back_anchor,
        curr_date@,
    ));
    page_or_fallback(template.render(templates, "error.html"))
}

} // verus!
