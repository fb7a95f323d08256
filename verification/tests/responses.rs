use cheesecake::business::controllers::index;
use cheesecake::business::controllers::nested::{self, Reply, SameSite, Signature};
use cheesecake::utils::custom_errors::app_error::Severity;
use cheesecake::views::{minify_config, Page, RenderError, Templates};
use cheesecake::business::controllers::v1::{self, Input};
use cheesecake::business::controllers::{resolve, Endpoint, Route, Routes};
use cheesecake::types::api::{ErrorLog, JsonBody, Response, Unit};
use cheesecake::types::api_response::ApiResponse;
use cheesecake::types::identifier::Identifier;
use cheesecake::types::status::StatusCode;
use cheesecake::utils::custom_errors::err_response::Format;

#[test]
fn the_echo_answers_with_what_it_was_sent() {
    let request: serde_json::Value = serde_json::from_str("{\"example_input\":\"hi\"}").unwrap();
    let input = Input { example_input: request["example_input"].as_str().unwrap().to_string() };
    let response = v1::get(input).into_response();
    assert_eq!(response.format, Format::Json);
    assert_eq!(response.status_code.as_u16(), 200);
    assert_eq!(response.body, "{\"status_code\":200,\"data\":{\"example_output\":\"hi\"},\"error\":null}");
}

#[test]
fn the_echo_escapes_what_it_echoes() {
    let response = v1::get(Input { example_input: "a\"b\\c\n".to_string() });
    assert_eq!(response.data.as_ref().unwrap().example_output, "a\"b\\c\n");
    assert_eq!(
        response.to_json(),
        "{\"status_code\":200,\"data\":{\"example_output\":\"a\\\"b\\\\c\\n\"},\"error\":null}"
    );
}

#[test]
fn a_success_carries_data_and_no_error() {
    let response = Response::success(Unit);
    assert_eq!(response.status_code, 200);
    assert_eq!(response.data, Some(Unit));
    assert!(response.error.is_none());
    assert_eq!(response.to_json(), "{\"status_code\":200,\"data\":null,\"error\":null}");
    let response: Response<Unit> = Response::from(Unit);
    assert_eq!(response.status_code, 200);
    assert!(response.data.is_some() && response.error.is_none());
    assert_eq!(Unit.to_json(), "null");
}

#[test]
fn a_failure_carries_an_error_and_no_data() {
    let id = Identifier::from_u128(0xcb910ce9_d611_4345_89f8_6399b836cf7b);
    let response: Response<Unit> = Response::error(StatusCode::internal_server_error(), "m".to_string(), Some(id));
    assert_eq!(response.status_code, 500);
    assert!(response.data.is_none());
    let error = response.error.as_ref().unwrap();
    assert_eq!(error.message, "m");
    assert_eq!(error.identifier.as_deref(), Some("cb910ce9-d611-4345-89f8-6399b836cf7b"));
    assert_eq!(
        response.to_json(),
        "{\"status_code\":500,\"data\":null,\"error\":{\"message\":\"m\",\"identifier\":\"cb910ce9-d611-4345-89f8-6399b836cf7b\"}}"
    );
    let response: Response<Unit> = Response::error(StatusCode::not_found(), "gone".to_string(), None);
    assert_eq!(response.to_json(), "{\"status_code\":404,\"data\":null,\"error\":{\"message\":\"gone\",\"identifier\":null}}");
}

#[test]
fn an_error_log_is_written_as_an_object() {
    let log = ErrorLog { message: "a\tb".to_string(), identifier: None };
    assert_eq!(log.to_json(), "{\"message\":\"a\\tb\",\"identifier\":null}");
    let log = ErrorLog { message: String::new(), identifier: Some("x\"y".to_string()) };
    assert_eq!(log.to_json(), "{\"message\":\"\",\"identifier\":\"x\\\"y\"}");
}

#[test]
fn the_stamped_envelope_of_a_success() {
    let response = ApiResponse::success(Unit);
    assert_eq!(response.data, Some(Unit));
    assert!(response.error.is_none());
    assert_eq!(response.to_json(), "{\"data\":null,\"error\":null}");
    let response: ApiResponse<Unit> = ApiResponse::from(Unit);
    assert!(response.data.is_some() && response.error.is_none());
}

#[test]
fn the_stamped_envelope_of_a_failure() {
    let id = Identifier::from_u128(0xcb910ce9_d611_4345_89f8_6399b836cf7b);
    let response: ApiResponse<Unit> =
        ApiResponse::error_at("m".to_string(), Some(id), "2018-01-26T18:30:09.453829Z".to_string());
    assert!(response.data.is_none());
    assert_eq!(
        response.to_json(),
        "{\"data\":null,\"error\":{\"message\":\"m\",\"identifier\":\"cb910ce9-d611-4345-89f8-6399b836cf7b\",\"time\":\"2018-01-26T18:30:09.453829Z\"}}"
    );
    assert_eq!(
        response.error.as_ref().unwrap().to_json(),
        "{\"message\":\"m\",\"identifier\":\"cb910ce9-d611-4345-89f8-6399b836cf7b\",\"time\":\"2018-01-26T18:30:09.453829Z\"}"
    );
}

#[test]
fn two_stamped_failures_differ_only_in_their_time() {
    let first: ApiResponse<Unit> = ApiResponse::error("m".to_string(), None);
    let second: ApiResponse<Unit> = ApiResponse::error("m".to_string(), None);
    let head = "{\"data\":null,\"error\":{\"message\":\"m\",\"identifier\":null,\"time\":\"";
    let tail = "\"}}";
    for response in [&first, &second] {
        let text = response.to_json();
        assert!(text.starts_with(head));
        assert!(text.ends_with(tail));
        let time = &text[head.len()..text.len() - tail.len()];
        assert_eq!(time, response.error.as_ref().unwrap().time);
        assert_eq!(time.len(), 27);
        assert!(time.ends_with('Z'));
    }
}

#[test]
fn the_routes_of_the_service() {
    let table: Vec<Route> = vec![Route { path: "/health".to_string(), endpoint: Endpoint::V1 }];
    let table = table.configure_routes();
    assert_eq!(table.len(), 4);
    assert_eq!(resolve(&table, "/"), Some(Endpoint::Index));
    assert_eq!(resolve(&table, "/api/v1"), Some(Endpoint::V1));
    assert_eq!(resolve(&table, "/nested"), Some(Endpoint::Nested));
    assert_eq!(resolve(&table, "/health"), Some(Endpoint::V1));
    assert_eq!(resolve(&table, "/api/v2"), None);
    assert_eq!(resolve(&table, "/api/v1/"), None);
    assert_eq!(resolve(&table, ""), None);
    assert_eq!(resolve(&Vec::new(), "/api/v1"), None);
}

#[test]
fn the_first_route_of_a_path_wins() {
    let table = vec![
        Route { path: "/a".to_string(), endpoint: Endpoint::Nested },
        Route { path: "/a".to_string(), endpoint: Endpoint::V1 },
    ];
    assert_eq!(resolve(&table, "/a"), Some(Endpoint::Nested));
}

#[test]
fn a_caller_with_the_cookie_is_refused() {
    let reply = nested::get(true, Signature { example_text: "long enough".to_string() }, "localhost");
    assert!(matches!(reply, Reply::Forbidden));
    let reply = nested::get(true, Signature { example_text: "x".to_string() }, "localhost");
    assert!(matches!(reply, Reply::Forbidden));
}

#[test]
fn a_text_of_the_wrong_length_is_reported() {
    for text in ["", "12345", &"x".repeat(51)] {
        let json = Signature { example_text: text.to_string() };
        assert!(!json.validate());
        match nested::get(false, json, "localhost") {
            Reply::Invalid(body) => {
                assert_eq!(
                    body.to_json(),
                    "{\"status_code\":200,\"data\":null,\"error\":{\"message\":\"Whoops, validation errors! example_text is 6 to 50 characters!\\n\",\"identifier\":null}}"
                );
            }
            other => panic!("unexpected reply: {:?}", other),
        }
    }
}

#[test]
fn an_accepted_text_is_answered_with_cookie_and_header() {
    for text in ["123456", &"x".repeat(50), "日本語日本語"] {
        let json = Signature { example_text: text.to_string() };
        assert!(json.validate());
        match nested::get(false, json, "example.org") {
            Reply::Accepted { cookie, header, body } => {
                assert_eq!(cookie.name, "example_cookie");
                assert_eq!(cookie.value, "example");
                assert_eq!(cookie.domain, "example.org");
                assert_eq!(cookie.path, "/");
                assert!(!cookie.secure);
                assert!(!cookie.http_only);
                assert_eq!(cookie.max_age_secs, 30 * 24 * 60 * 60);
                assert_eq!(cookie.same_site, SameSite::Unrestricted);
                assert_eq!(header.name, "Example-Header");
                assert_eq!(header.value, "example");
                assert_eq!(
                    body.to_json(),
                    "{\"status_code\":200,\"data\":{\"example_return\":\"Success!\"},\"error\":null}"
                );
            }
            other => panic!("unexpected reply: {:?}", other),
        }
    }
}

#[test]
fn the_landing_page_is_answered_under_200() {
    let mut templates = Templates::new(true);
    templates.add("header.html", "H").unwrap();
    templates.add("footer.html", "F").unwrap();
    templates.add("index.html", "<{{ header }}|{{ footer }}>").unwrap();
    let response = index::get(&templates).ok().unwrap();
    assert_eq!(response.format, Format::Html);
    assert_eq!(response.status_code.as_u16(), 200);
    assert_eq!(response.body, "<H|F>");
    assert_eq!(response.minify, None);
    let page = Page { text: "page".to_string(), minify: Some(minify_config()) };
    let response = index::respond(Ok(page)).ok().unwrap();
    assert_eq!(response.body, "page");
    assert_eq!(response.minify, Some(minify_config()));
}

#[test]
fn a_landing_page_that_cannot_be_rendered_is_a_failure_of_the_service() {
    let templates = Templates::new(true);
    let failure = index::get(&templates).err().unwrap();
    assert_eq!(failure.source.status_code.as_u16(), 500);
    assert_eq!(failure.source.message, "Internal Server Error");
    assert_eq!(failure.source.source.as_deref(), Some("Template 'header.html' not found"));
    assert!(failure.source.identifier.is_some());
    assert_eq!(failure.source.severity, Severity::ERROR);
    let failure = index::respond(Err(RenderError::Encoding)).err().unwrap();
    assert_eq!(failure.source.source.as_deref(), Some("The minified page is not valid UTF-8"));
    let response = failure.into_response(&templates, "now".to_string());
    assert_eq!(response.status_code.as_u16(), 500);
    assert_eq!(response.body, "An error has ocurred while rendering the Error Page. Whoops...");
}

#[test]
fn an_envelope_is_sent_under_the_status_that_it_reports() {
    let response: Response<Unit> = Response::error(StatusCode::not_found(), "gone".to_string(), None);
    let sent = response.into_response();
    assert_eq!(sent.status_code.as_u16(), 404);
    assert_eq!(sent.body, "{\"status_code\":404,\"data\":null,\"error\":{\"message\":\"gone\",\"identifier\":null}}");
    assert_eq!(Response::success(Unit).into_response().status_code.as_u16(), 200);
    for code in [0u16, 99, 1000] {
        let odd = Response { status_code: code, data: Some(Unit), error: None };
        assert_eq!(odd.into_response().status_code.as_u16(), 500);
    }
}

#[test]
fn payloads_of_text_numbers_and_flags() {
    assert_eq!(Response::success("a\"b".to_string()).to_json(), "{\"status_code\":200,\"data\":\"a\\\"b\",\"error\":null}");
    assert_eq!(Response::success(true).to_json(), "{\"status_code\":200,\"data\":true,\"error\":null}");
    assert_eq!(false.to_json(), "false");
    assert_eq!(0u64.to_json(), "0");
    assert_eq!(u64::MAX.to_json(), "18446744073709551615");
    assert_eq!(0i64.to_json(), "0");
    assert_eq!(42i64.to_json(), "42");
    assert_eq!((-7i64).to_json(), "-7");
    assert_eq!(i64::MIN.to_json(), "-9223372036854775808");
    assert_eq!(i64::MAX.to_json(), "9223372036854775807");
    assert_eq!(Response::success(-1i64).to_json(), "{\"status_code\":200,\"data\":-1,\"error\":null}");
}
