//! The page shown where no route matches.

use vstd::prelude::*;
use crate::views::{renders, views_of, AppTemplate, Entry, FieldValue, Page, RenderError, Templates};

verus! {

/// The page has no variables.
#[derive(Clone, Copy, Debug, Default)]
pub struct Template;

impl AppTemplate for Template {
    open spec fn entries(&self) -> Seq<(Seq<char>, FieldValue)> {
        Seq::empty()
    }

    fn to_entries(&self) -> (entries: Vec<Entry>) {
        let entries: Vec<Entry> = Vec::new();
        assert(views_of(entries@) =~= self.entries());
        entries
    }
}

/// Renders `not_found.html` with no variable but the flag of development.
pub fn render(templates: &Templates) -> (r: Result<Page, RenderError>)
    ensures
        renders(r, templates.page("not_found.html"@, Seq::empty()), templates.dev()),
{
    Template.render(templates, "not_found.html")
}

} // verus!
