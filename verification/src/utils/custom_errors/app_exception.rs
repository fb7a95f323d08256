//! An unexpected failure together with the trace of where it arose.

use vstd::prelude::*;
use vstd::string::{StrSliceExecFns, StringExecFns};
use crate::types::identifier::Identifier;
use crate::types::status::StatusCode;
use crate::utils::custom_errors::app_error::{internal_message, AppError, Severity};
use crate::utils::text::chars_of;

verus! {

/// The frame at which the framework calls into a handler. What a trace
/// shows from there on says nothing about the service.
pub open spec fn handler_frame() -> Seq<char> {
    "axum::handler::Handler"@
}

/// What stands in for a trace that cannot be cut.
pub open spec fn unavailable() -> Seq<char> {
    "[backtrace unavailable]"@
}

/// `needle` stands in `text` at position `i`.
pub open spec fn occurs_at(text: Seq<char>, needle: Seq<char>, i: int) -> bool {
    0 <= i && i + needle.len() <= text.len() && text.subrange(i, i + needle.len()) == needle
}

/// Position `i` is where `needle` stands in `text` for the first time.
pub open spec fn first_occurrence(text: Seq<char>, needle: Seq<char>, i: int) -> bool {
    occurs_at(text, needle, i) && forall|j: int| 0 <= j < i ==> !occurs_at(text, needle, j)
}

/// Position `k` holds the last line break of `text` before position `end`.
pub open spec fn last_line_break(text: Seq<char>, end: int, k: int) -> bool {
    0 <= k < end <= text.len() && text[k] == '\n' && forall|j: int|
        k < j < end ==> text[j] != '\n'
}

/// A trace is cut at position `k` where `k` holds the last line break
/// before the first mention of the handler frame.
pub open spec fn cut_at(trace: Seq<char>, k: int) -> bool {
    exists|i: int| first_occurrence(trace, handler_frame(), i) && last_line_break(trace, i, k)
}

/// Whether `needle` stands in `text` at position `i`.
fn stands_at(text: &Vec<char>, needle: &Vec<char>, i: usize) -> (r: bool)
    requires
        i + needle.len() <= text.len(),
    ensures
        r == occurs_at(text@, needle@, i as int),
{
    let mut k: usize = 0;
    while k < needle.len()
        invariant
            k <= needle.len(),
            i + needle.len() <= text.len(),
            text@.subrange(i as int, i + k) == needle@.take(k as int),
        decreases needle.len() - k,
    {
        if text[i + k] != needle[k] {
            proof {
                let part = text@.subrange(i as int, i + needle.len());
                assert(part[k as int] != needle@[k as int]);
            }
            return false;
        }
        proof {
            assert(text@.subrange(i as int, i + k + 1) =~= text@.subrange(i as int, i + k).push(
                text@[i + k],
            ));
            assert(needle@.take(k + 1) =~= needle@.take(k as int).push(needle@[k as int]));
        }
        k = k + 1;
    }
    proof {
        assert(needle@.take(k as int) =~= needle@);
    }
    true
}

/// Finds the first position at which `needle` stands in `text`.
pub fn find(text: &Vec<char>, needle: &Vec<char>) -> (r: Option<usize>)
    ensures
        r is Some ==> first_occurrence(text@, needle@, r->0 as int),
        r is None ==> forall|i: int| !occurs_at(text@, needle@, i),
{
    if needle.len() > text.len() {
        return None;
    }
    let last = text.len() - needle.len();
    let mut i: usize = 0;
    loop
        invariant
            i <= last,
            last + needle.len() == text.len(),
            forall|j: int| 0 <= j < i ==> !occurs_at(text@, needle@, j),
        decreases last - i,
    {
        if stands_at(text, needle, i) {
            return Some(i);
        }
        if i == last {
            return None;
        }
        i = i + 1;
    }
}

/// Finds the last line break of `text` before position `end`.
pub fn rfind_line_break(text: &Vec<char>, end: usize) -> (r: Option<usize>)
    requires
        end <= text.len(),
    ensures
        r is Some ==> last_line_break(text@, end as int, r->0 as int),
        r is None ==> forall|j: int| 0 <= j < end ==> text@[j] != '\n',
{
    let mut k: usize = end;
    while k > 0
        invariant
            k <= end <= text.len(),
            forall|j: int| k <= j < end ==> text@[j] != '\n',
        decreases k,
    {
        k = k - 1;
        if text[k] == '\n' {
            return Some(k);
        }
    }
    None
}

/// Cuts a trace before the frames of the framework: the result is what
/// stands before the last line break that precedes the first mention of the
/// handler frame. A trace without that frame, or without a line break
/// before it, is replaced by a fixed text.
pub fn cut_trace(trace: &str) -> (r: String)
    ensures
        forall|k: int| cut_at(trace@, k) ==> r@ == trace@.take(k),
        (forall|k: int| !cut_at(trace@, k)) ==> r@ == unavailable(),
{
    let text = chars_of(trace);
    let needle = chars_of("axum::handler::Handler");
    match find(&text, &needle) {
        Some(i) => match rfind_line_break(&text, i) {
            Some(idx) => {
                proof {
                    assert(cut_at(trace@, idx as int));
                    assert forall|k: int| cut_at(trace@, k) implies k == idx by {
                        let other = choose|j: int|
                            first_occurrence(trace@, handler_frame(), j) && last_line_break(
                                trace@,
                                j,
                                k,
                            );
                        assert(other == i) by {
                            if other < i {
                                assert(!occurs_at(trace@, handler_frame(), other));
                            }
                            if i < other {
                                assert(!occurs_at(trace@, handler_frame(), i as int));
                            }
                        }
                        if k < idx {
                            assert(trace@[idx as int] != '\n');
                        }
                        if idx < k {
                            assert(trace@[k] != '\n');
                        }
                    }
                    assert(trace@.subrange(0, idx as int) =~= trace@.take(idx as int));
                }
                String::from_str(trace.substring_char(0, idx))
            },
            None => {
                proof {
                    assert forall|k: int| !cut_at(trace@, k) by {
                        if cut_at(trace@, k) {
                            let other = choose|j: int|
                                first_occurrence(trace@, handler_frame(), j) && last_line_break(
                                    trace@,
                                    j,
                                    k,
                                );
                            if other < i {
                                assert(!occurs_at(trace@, handler_frame(), other));
                            }
                            if i < other {
                                assert(!occurs_at(trace@, handler_frame(), i as int));
                            }
                            assert(trace@[k] != '\n');
                        }
                    }
                }
                String::from_str("[backtrace unavailable]")
            },
        },
        None => String::from_str("[backtrace unavailable]"),
    }
}

/// An unexpected failure: its identifier, the description of its cause and
/// the trace of where it arose.
#[derive(Debug)]
pub struct AppException {
    pub identifier: Identifier,
    pub source: String,
    pub backtrace: String,
}

/// The line written to the log for an exception with these parts.
pub open spec fn exception_text(identifier: Identifier, source: Seq<char>, trace: Seq<char>) -> Seq<
    char,
> {
    "INTERNAL SERVER ERROR! Identifier: "@ + identifier.text() + ". Source Error: "@ + source
        + ". Backtrace:\n"@ + trace
}

impl AppException {
    /// Records an unexpected failure under a fresh identifier.
    pub fn new(source: String, backtrace: String) -> (r: AppException)
        ensures
            r.source == source,
            r.backtrace == backtrace,
            r.identifier.v4(),
    {
        AppException { identifier: Identifier::new_v4(), source, backtrace }
    }

    /// The identifier under which the exception is logged.
    #[must_use]
    pub fn identifier(&self) -> (id: Identifier)
        ensures
            id == self.identifier,
    {
        self.identifier
    }

    /// The line for the log: the identifier, the cause, and the trace cut
    /// before the frames of the framework.
    pub fn to_string(&self) -> (line: String)
        ensures
            forall|k: int|
                cut_at(self.backtrace@, k) ==> line@ == exception_text(
                    self.identifier,
                    self.source@,
                    self.backtrace@.take(k),
                ),
            (forall|k: int| !cut_at(self.backtrace@, k)) ==> line@ == exception_text(
                self.identifier,
                self.source@,
                unavailable(),
            ),
    {
        let id = self.identifier.to_string();
        let trace = cut_trace(self.backtrace.as_str());
        let mut line = String::from_str("INTERNAL SERVER ERROR! Identifier: ");
        line.append(id.as_str());
        line.append(". Source Error: ");
        line.append(self.source.as_str());
        line.append(". Backtrace:\n");
        line.append(trace.as_str());
        line
    }

    /// The record that the client's response is made of: status 500, the
    /// generic message, and the identifier of the exception.
    pub fn into_error(self) -> (r: AppError)
        ensures
            r.message@ == internal_message(),
            r.status_code.code == 500,
            r.identifier == Some(self.identifier),
            r.source == Some(self.source),
            r.severity == Severity::ERROR,
    {
        AppError::with_identifier(
            String::from_str("Internal Server Error"),
            StatusCode::internal_server_error(),
            Some(self.source),
            Some(self.identifier),
        )
    }
}

} // verus!
