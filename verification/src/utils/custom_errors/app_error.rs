//! The record made of a failure at the point where it is classified.

use vstd::prelude::*;
use vstd::string::StringExecFns;
use crate::types::identifier::Identifier;
use crate::types::status::{status_display, StatusCode};

verus! {

/// How loudly a failure is logged.
#[derive(Clone, Copy, Debug, PartialEq, Eq, Structural)]
pub enum Severity {
    NONE,
    WARN,
    ERROR,
}

/// A classified failure: what the client is told, with which status, under
/// which correlation identifier, and what caused it.
///
/// `source` holds the description of the cause. It is written to the log and
/// never to a response.
#[derive(Debug)]
pub struct AppError {
    pub message: String,
    pub status_code: StatusCode,
    pub identifier: Option<Identifier>,
    pub source: Option<String>,
    pub severity: Severity,
}

/// The severity of a log entry that carries an identifier: `ERROR` for a
/// failure of the service, `WARN` for a flagged failure of the request.
pub open spec fn logged_severity(status_code: StatusCode) -> Severity {
    if status_code.server_error() {
        Severity::ERROR
    } else {
        Severity::WARN
    }
}

/// The severity of a record made with or without an identifier.
pub open spec fn severity_for(status_code: StatusCode, identifiable: bool) -> Severity {
    if identifiable {
        logged_severity(status_code)
    } else {
        Severity::NONE
    }
}

/// What a client reads when the failure is none of its business.
pub open spec fn internal_message() -> Seq<char> {
    "Internal Server Error"@
}

/// What a client reads when the service sheds load.
pub open spec fn overloaded_message() -> Seq<char> {
    "Service is overloaded, try again later."@
}

/// What a client reads when its request ran out of time.
pub open spec fn timeout_message() -> Seq<char> {
    "Request timed out, try again later."@
}

/// What a client reads when no route matches.
pub open spec fn not_found_message() -> Seq<char> {
    "Not Found"@
}

/// The line written to the log for a record with these parts.
pub open spec fn log_text(
    status_code: StatusCode,
    identifier: Option<Identifier>,
    message: Seq<char>,
    source: Option<Seq<char>>,
) -> Seq<char> {
    "Status Code: "@ + status_display(status_code.code) + "."@ + (match identifier {
        Some(id) => " Identifier: "@ + id.text() + "."@,
        None => Seq::empty(),
    }) + " "@ + message + "."@ + (match source {
        Some(cause) => " Source Error: "@ + cause,
        None => Seq::empty(),
    })
}

/// A failure as it arises, before it is classified.
#[derive(Debug)]
pub enum Failure {
    /// An extractor refused the request, with this status and description.
    Rejected { status_code: StatusCode, body_text: String },
    /// Load was shed.
    Overloaded,
    /// The request ran out of time.
    Timeout,
    /// No route matched the path.
    NotFound,
    /// Anything else, with the description of its cause.
    Other(String),
}

/// The record carries no identifier and no cause, under this severity.
pub open spec fn anonymous(r: AppError, severity: Severity) -> bool {
    r.identifier is None && r.source is None && r.severity == severity
}

/// `r` is the record that the policy of the service makes of `failure`. The
/// first rule that applies decides: a refused request keeps the status and
/// the description of its refusal; shed load, an expired request and an
/// unknown path have their fixed status and message; everything else is
/// answered 500 with the generic message, identified, and logged with its
/// cause.
pub open spec fn classified(failure: Failure, r: AppError) -> bool {
    match failure {
        Failure::Rejected { status_code, body_text } => r.status_code == status_code && r.message
            == body_text && anonymous(r, Severity::NONE),
        Failure::Overloaded => r.status_code.code == 503 && r.message@ == overloaded_message()
            && anonymous(r, Severity::NONE),
        Failure::Timeout => r.status_code.code == 504 && r.message@ == timeout_message()
            && anonymous(r, Severity::WARN),
        Failure::NotFound => r.status_code.code == 404 && r.message@ == not_found_message()
            && anonymous(r, Severity::NONE),
        Failure::Other(cause) => r.status_code.code == 500 && r.message@ == internal_message()
            && r.identifier is Some && r.identifier->0.v4() && r.source == Some(cause)
            && r.severity == Severity::ERROR,
    }
}

/// An entry for the log: its severity and its line.
#[derive(Debug)]
pub struct LogEntry {
    pub severity: Severity,
    pub line: String,
}

impl AppError {
    /// The record is one that the constructors of this module make: a status
    /// that fits a status line, and an identifier only together with the
    /// severity that its log entry needs.
    pub open spec fn wf(&self) -> bool {
        &&& self.status_code.wf()
        &&& self.identifier is Some ==> self.identifier->0.v4() && self.severity
            == logged_severity(self.status_code)
    }

    /// The cause, as text.
    pub open spec fn source_text(&self) -> Option<Seq<char>> {
        match self.source {
            Some(cause) => Some(cause@),
            None => None,
        }
    }

    /// The line that the log shows for this record.
    pub open spec fn log_line_text(&self) -> Seq<char> {
        log_text(self.status_code, self.identifier, self.message@, self.source_text())
    }

    /// The record with exactly this identifier. It is logged if and only if
    /// it carries one.
    pub fn with_identifier(
        message: String,
        status_code: StatusCode,
        source: Option<String>,
        identifier: Option<Identifier>,
    ) -> (r: AppError)
        ensures
            r.message == message,
            r.status_code == status_code,
            r.source == source,
            r.identifier == identifier,
            r.severity == severity_for(status_code, identifier is Some),
    {
        let severity = match identifier {
            Some(_) => if status_code.is_server_error() {
                Severity::ERROR
            } else {
                Severity::WARN
            },
            None => Severity::NONE,
        };
        AppError { message, status_code, identifier, source, severity }
    }

    /// Classifies a failure. An identifiable one gets a fresh random
    /// identifier and a log entry; any other gets neither.
    pub fn new(
        message: String,
        status_code: StatusCode,
        source: Option<String>,
        identifiable: bool,
    ) -> (r: AppError)
        ensures
            r.message == message,
            r.status_code == status_code,
            r.source == source,
            r.identifier is Some <==> identifiable,
            r.identifier is Some ==> r.identifier->0.v4(),
            r.severity == severity_for(status_code, identifiable),
            status_code.wf() ==> r.wf(),
    {
        let identifier = if identifiable {
            Some(Identifier::new_v4())
        } else {
            None
        };
        AppError::with_identifier(message, status_code, source, identifier)
    }

    /// The catch-all: status 500 and a message that gives nothing away. The
    /// cause goes to the log under a fresh identifier.
    pub fn new_500(source: String) -> (r: AppError)
        ensures
            r.message@ == internal_message(),
            r.status_code.code == 500,
            r.source == Some(source),
            r.identifier is Some,
            r.identifier->0.v4(),
            r.severity == Severity::ERROR,
            r.wf(),
    {
        AppError::new(
            String::from_str("Internal Server Error"),
            StatusCode::internal_server_error(),
            Some(source),
            true,
        )
    }

    /// A request that an extractor refused: the extractor's own status and
    /// description, no identifier, no log entry.
    pub fn from_rejection(body_text: String, status_code: StatusCode) -> (r: AppError)
        ensures
            r.message == body_text,
            r.status_code == status_code,
            r.source is None,
            r.identifier is None,
            r.severity == Severity::NONE,
            status_code.wf() ==> r.wf(),
    {
        AppError::new(body_text, status_code, None, false)
    }

    /// Load was shed: status 503 and a fixed message, with no cause, no
    /// identifier and no log entry.
    pub fn overloaded() -> (r: AppError)
        ensures
            r.message@ == overloaded_message(),
            r.status_code.code == 503,
            r.source is None,
            r.identifier is None,
            r.severity == Severity::NONE,
            r.wf(),
    {
        AppError {
            message: String::from_str("Service is overloaded, try again later."),
            status_code: StatusCode::service_unavailable(),
            identifier: None,
            source: None,
            severity: Severity::NONE,
        }
    }

    /// The request ran out of time: status 504 and a fixed message. The log
    /// hears of it as a warning; the client gets no identifier.
    pub fn timeout() -> (r: AppError)
        ensures
            r.message@ == timeout_message(),
            r.status_code.code == 504,
            r.source is None,
            r.identifier is None,
            r.severity == Severity::WARN,
            r.wf(),
    {
        AppError {
            message: String::from_str("Request timed out, try again later."),
            status_code: StatusCode::gateway_timeout(),
            identifier: None,
            source: None,
            severity: Severity::WARN,
        }
    }

    /// No route matched: status 404 and a fixed message, nothing logged.
    pub fn not_found() -> (r: AppError)
        ensures
            r.message@ == not_found_message(),
            r.status_code.code == 404,
            r.source is None,
            r.identifier is None,
            r.severity == Severity::NONE,
            r.wf(),
    {
        AppError {
            message: String::from_str("Not Found"),
            status_code: StatusCode::not_found(),
            identifier: None,
            source: None,
            severity: Severity::NONE,
        }
    }

    /// Classifies a failure, whatever its origin. A refused request keeps
    /// the status and the description of its refusal; shed load, an expired
    /// request and an unknown path have their fixed records; everything else
    /// is the catch-all. Only the catch-all is identified and carries a
    /// cause, and only it and the expired request reach the log.
    pub fn classify(failure: Failure) -> (r: AppError)
        ensures
            classified(failure, r),
            !(failure is Rejected) || failure->status_code.wf() ==> r.wf(),
    {
        match failure {
            Failure::Rejected { status_code, body_text } => AppError::from_rejection(
                body_text,
                status_code,
            ),
            Failure::Overloaded => AppError::overloaded(),
            Failure::Timeout => AppError::timeout(),
            Failure::NotFound => AppError::not_found(),
            Failure::Other(cause) => AppError::new_500(cause),
        }
    }

    /// The line for the log: status, identifier if there is one, message,
    /// and the cause if there is one.
    pub fn to_string(&self) -> (line: String)
        requires
            self.status_code.wf(),
        ensures
            line@ == self.log_line_text(),
    {
        let mut line = String::from_str("Status Code: ");
        let status = self.status_code.to_string();
        line.append(status.as_str());
        line.append(".");
        match &self.identifier {
            Some(id) => {
                let text = id.to_string();
                line.append(" Identifier: ");
                line.append(text.as_str());
                line.append(".");
                assert(line@ =~= "Status Code: "@ + status_display(self.status_code.code) + "."@
                    + (" Identifier: "@ + id.text() + "."@));
            },
            None => {
                assert(line@ =~= "Status Code: "@ + status_display(self.status_code.code) + "."@
                    + Seq::<char>::empty());
            },
        }
        line.append(" ");
        line.append(self.message.as_str());
        line.append(".");
        let ghost head = line@;
        match &self.source {
            Some(cause) => {
                line.append(" Source Error: ");
                line.append(cause.as_str());
                assert(line@ =~= head + (" Source Error: "@ + cause@));
            },
            None => {
                assert(line@ =~= head + Seq::<char>::empty());
            },
        }
        line
    }

    /// What goes to the log for this record: nothing for severity `NONE`,
    /// else the line under the record's severity.
    pub fn log_entry(&self) -> (entry: Option<LogEntry>)
        requires
            self.status_code.wf(),
        ensures
            entry is None <==> self.severity == Severity::NONE,
            entry is Some ==> entry->0.severity == self.severity && entry->0.line@
                == self.log_line_text(),
    {
        match self.severity {
            Severity::NONE => None,
            _ => Some(LogEntry { severity: self.severity, line: self.to_string() }),
        }
    }
}

/// Lets a result whose failure carries no status of its own end in the
/// catch-all record: `result.to_500()?`.
pub trait To500<T> {
    /// Turns the failure into the catch-all record; a success passes
    /// through.
    fn to_500(self) -> (r: Result<T, AppError>);
}

impl<T> To500<T> for Result<T, String> {
    fn to_500(self) -> (r: Result<T, AppError>)
        ensures
            self is Ok ==> r == Ok::<T, AppError>(self->Ok_0),
            self is Err ==> r is Err && r->Err_0.message@ == internal_message()
                && r->Err_0.status_code.code == 500 && r->Err_0.source == Some(self->Err_0)
                && r->Err_0.identifier is Some && r->Err_0.identifier->0.v4() && r->Err_0.severity
                == Severity::ERROR,
    {
        match self {
            Ok(value) => Ok(value),
            Err(cause) => Err(AppError::new_500(cause)),
        }
    }
}

} // verus!
