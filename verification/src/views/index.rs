//! The landing page.

use vstd::prelude::*;
use vstd::string::StringExecFns;
use crate::views::{
    renders, views_of, AppTemplate, Entry, Field, FieldValue, Page, RenderError, Templates,
};

verus! {

/// The landing page embeds the rendered header and footer.
#[derive(Clone, Debug, Default)]
pub struct Template {
    pub header: String,
    pub footer: String,
}

/// The variables of a landing page with this header and this footer.
pub open spec fn index_entries(header: Seq<char>, footer: Seq<char>) -> Seq<
    (Seq<char>, FieldValue),
> {
    seq![("header"@, FieldValue::Text(header)), ("footer"@, FieldValue::Text(footer))]
}

/// What rendering the landing page gives: where the header fails, its
/// failure; else where the footer fails, its failure; else `index.html`
/// with the header's page in `header` and the footer's in `footer`.
pub open spec fn index_page(templates: Templates) -> Result<Seq<char>, Seq<char>> {
    match templates.page("header.html"@, Seq::empty()) {
        Err(words) => Err(words),
        Ok(header) => match templates.page("footer.html"@, Seq::empty()) {
            Err(words) => Err(words),
            Ok(footer) => templates.page("index.html"@, index_entries(header, footer)),
        },
    }
}

impl AppTemplate for Template {
    open spec fn entries(&self) -> Seq<(Seq<char>, FieldValue)> {
        index_entries(self.header@, self.footer@)
    }

    fn to_entries(&self) -> (entries: Vec<Entry>) {
        let mut entries = Vec::new();
        entries.push(
            Entry { name: String::from_str("header"), value: Field::Text(self.header.clone()) },
        );
        entries.push(
            Entry { name: String::from_str("footer"), value: Field::Text(self.footer.clone()) },
        );
        assert(views_of(entries@) =~= self.entries());
        entries
    }
}

impl Template {
    /// The landing page from what became of its two parts: the page with
    /// the header in `header` and the footer in `footer`, or the failure of
    /// the header, or else that of the footer.
    pub fn from_parts(header: Result<Page, RenderError>, footer: Result<Page, RenderError>) -> (r:
        Result<Template, RenderError>)
        ensures
            header is Err ==> r == Err::<Template, RenderError>(header->Err_0),
            header is Ok && footer is Err ==> r == Err::<Template, RenderError>(footer->Err_0),
            header is Ok && footer is Ok ==> r == Ok::<Template, RenderError>(
                (Template { header: header->Ok_0.text, footer: footer->Ok_0.text }),
            ),
    {
        match header {
            Ok(header) => match footer {
                Ok(footer) => Ok(Template { header: header.text, footer: footer.text }),
                Err(error) => Err(error),
            },
            Err(error) => Err(error),
        }
    }
}

/// Renders `header.html` and `footer.html`, then `index.html` around them.
/// A part that fails ends the rendering with its failure, the header's
/// before the footer's, and `index.html` is not rendered.
pub fn render(templates: &Templates) -> (r: Result<Page, RenderError>)
    ensures
        renders(r, index_page(*templates), templates.dev()),
{
    let header = crate::views::header::render(templates);
    let footer = crate::views::footer::render(templates);
    match Template::from_parts(header, footer) {
        Ok(page) => page.render(templates, "index.html"),
        Err(error) => Err(error),
    }
}

} // verus!
