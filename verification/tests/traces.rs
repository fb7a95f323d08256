use cheesecake::types::identifier::Identifier;
use cheesecake::utils::custom_errors::app_error::Severity;
use cheesecake::utils::custom_errors::app_exception::{cut_trace, find, rfind_line_break, AppException};
use cheesecake::utils::text::chars_of;

fn cut_by_std(trace: &str) -> &str {
    trace
        .find("axum::handler::Handler")
        .and_then(|i| {
            let temp = trace.get(0..i)?;
            let idx = temp.rfind('\n')?;
            trace.get(0..idx)
        })
        .unwrap_or("[backtrace unavailable]")
}

#[test]
fn a_trace_is_cut_before_the_frames_of_the_framework() {
    let trace = "0: service::load\n   at src/load.rs:7\n1: <F as axum::handler::Handler<T>>::call\n2: tokio::run\n";
    assert_eq!(cut_trace(trace), "0: service::load\n   at src/load.rs:7");
}

#[test]
fn a_trace_without_the_frame_is_unavailable() {
    assert_eq!(cut_trace(""), "[backtrace unavailable]");
    assert_eq!(cut_trace("0: service::load\n1: tokio::run\n"), "[backtrace unavailable]");
    assert_eq!(cut_trace("axum::handler::Handle"), "[backtrace unavailable]");
}

#[test]
fn a_frame_on_the_first_line_leaves_nothing_to_show() {
    assert_eq!(cut_trace("axum::handler::Handler"), "[backtrace unavailable]");
    assert_eq!(cut_trace("0: axum::handler::Handler\n1: more\n"), "[backtrace unavailable]");
    assert_eq!(cut_trace("\naxum::handler::Handler"), "");
}

#[test]
fn cutting_agrees_with_searching_by_std() {
    let traces = [
        "",
        "\n",
        "a\nb\nc",
        "axum::handler::Handler",
        "x axum::handler::Handler y",
        "one\ntwo axum::handler::Handler\nthree axum::handler::Handler\n",
        "one\n\n\naxum::handler::Handler",
        "é日本\n  üaxum::handler::Handler\n",
        "axum::handler::Handleraxum::handler::Handler\n",
        "line\naxum::handler::Handle\nr axum::handler::Handler",
        "line\naxum::handler::axum::handler::Handler",
    ];
    for trace in traces {
        assert_eq!(cut_trace(trace), cut_by_std(trace), "{:?}", trace);
    }
}

#[test]
fn searching_finds_the_first_and_the_last() {
    let text = chars_of("ab\ncab\nc");
    assert_eq!(text, vec!['a', 'b', '\n', 'c', 'a', 'b', '\n', 'c']);
    assert_eq!(find(&text, &chars_of("ab")), Some(0));
    assert_eq!(find(&text, &chars_of("cab")), Some(3));
    assert_eq!(find(&text, &chars_of("\nc")), Some(2));
    assert_eq!(find(&text, &chars_of("abc")), None);
    assert_eq!(find(&text, &chars_of("")), Some(0));
    assert_eq!(find(&chars_of(""), &chars_of("")), Some(0));
    assert_eq!(find(&chars_of(""), &chars_of("a")), None);
    assert_eq!(find(&text, &chars_of("ab\ncab\nc")), Some(0));
    assert_eq!(find(&text, &chars_of("ab\ncab\ncd")), None);
    assert_eq!(rfind_line_break(&text, 8), Some(6));
    assert_eq!(rfind_line_break(&text, 6), Some(2));
    assert_eq!(rfind_line_break(&text, 2), None);
    assert_eq!(rfind_line_break(&text, 0), None);
}

#[test]
fn an_exception_is_logged_with_its_cut_trace() {
    let mut exception = AppException::new(
        "connection refused".to_string(),
        "0: service::load\n1: axum::handler::Handler::call\n".to_string(),
    );
    assert_eq!(exception.identifier().bits & 0xf000_0000_0000_0000_0000, 0x4000_0000_0000_0000_0000);
    exception.identifier = Identifier::from_u128(0xcb910ce9_d611_4345_89f8_6399b836cf7b);
    assert_eq!(
        exception.to_string(),
        "INTERNAL SERVER ERROR! Identifier: cb910ce9-d611-4345-89f8-6399b836cf7b. Source Error: connection refused. Backtrace:\n0: service::load"
    );
    exception.backtrace = "disabled backtrace".to_string();
    assert_eq!(
        exception.to_string(),
        "INTERNAL SERVER ERROR! Identifier: cb910ce9-d611-4345-89f8-6399b836cf7b. Source Error: connection refused. Backtrace:\n[backtrace unavailable]"
    );
    let error = exception.into_error();
    assert_eq!(error.status_code.as_u16(), 500);
    assert_eq!(error.message, "Internal Server Error");
    assert_eq!(error.identifier, Some(Identifier::from_u128(0xcb910ce9_d611_4345_89f8_6399b836cf7b)));
    assert_eq!(error.source.as_deref(), Some("connection refused"));
    assert_eq!(error.severity, Severity::ERROR);
}
