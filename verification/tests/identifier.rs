use cheesecake::types::identifier::Identifier;
use cheesecake::types::status::StatusCode;

#[test]
fn an_identifier_is_written_hyphenated_in_lower_case() {
    let id = Identifier::from_u128(0xcb910ce9_d611_4345_89f8_6399b836cf7b);
    assert_eq!(id.to_string(), "cb910ce9-d611-4345-89f8-6399b836cf7b");
    assert_eq!(Identifier::from_u128(0).to_string(), "00000000-0000-0000-0000-000000000000");
    assert_eq!(Identifier::from_u128(u128::MAX).to_string(), "ffffffff-ffff-ffff-ffff-ffffffffffff");
    assert_eq!(
        Identifier::from_u128(0x0123456789abcdef_fedcba9876543210).to_string(),
        "01234567-89ab-cdef-fedc-ba9876543210"
    );
}

#[test]
fn a_fresh_identifier_is_of_version_4() {
    for _ in 0..64 {
        let id = Identifier::new_v4();
        assert_eq!(id.bits & 0x0000_0000_0000_f000_c000_0000_0000_0000, 0x0000_0000_0000_4000_8000_0000_0000_0000);
        let text = id.to_string();
        assert_eq!(text.len(), 36);
        assert_eq!(text.as_bytes()[14], b'4');
        assert!(matches!(text.as_bytes()[19], b'8' | b'9' | b'a' | b'b'));
        for (i, c) in text.chars().enumerate() {
            if i == 8 || i == 13 || i == 18 || i == 23 {
                assert_eq!(c, '-');
            } else {
                assert!(c.is_ascii_digit() || ('a'..='f').contains(&c));
            }
        }
    }
}

#[test]
fn status_code_accepts_the_status_line_range() {
    assert!(StatusCode::from_u16(0).is_none());
    assert!(StatusCode::from_u16(99).is_none());
    assert_eq!(StatusCode::from_u16(100).map(|s| s.as_u16()), Some(100));
    assert_eq!(StatusCode::from_u16(999).map(|s| s.as_u16()), Some(999));
    assert!(StatusCode::from_u16(1000).is_none());
    assert!(StatusCode::from_u16(u16::MAX).is_none());
}

#[test]
fn status_classes() {
    let classes = [(399, false, false), (400, true, false), (422, true, false), (499, true, false), (500, false, true), (503, false, true), (599, false, true), (600, false, false)];
    for (code, client, server) in classes {
        let status = StatusCode::from_u16(code).unwrap();
        assert_eq!(status.is_client_error(), client);
        assert_eq!(status.is_server_error(), server);
    }
}

#[test]
fn named_statuses() {
    assert_eq!(StatusCode::ok().as_u16(), 200);
    assert_eq!(StatusCode::forbidden().as_u16(), 403);
    assert_eq!(StatusCode::not_found().as_u16(), 404);
    assert_eq!(StatusCode::internal_server_error().as_u16(), 500);
    assert_eq!(StatusCode::service_unavailable().as_u16(), 503);
    assert_eq!(StatusCode::gateway_timeout().as_u16(), 504);
}

#[test]
fn a_status_is_shown_with_its_reason() {
    assert_eq!(StatusCode::ok().to_string(), "200 OK");
    assert_eq!(StatusCode::not_found().to_string(), "404 Not Found");
    assert_eq!(StatusCode::internal_server_error().to_string(), "500 Internal Server Error");
    assert_eq!(StatusCode::from_u16(999).unwrap().to_string(), "999 <unknown status code>");
}
