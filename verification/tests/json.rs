use cheesecake::utils::json::to_json_string;
use cheesecake::utils::text::push_decimal;

#[test]
fn a_plain_text_is_only_quoted() {
    assert_eq!(to_json_string("hi"), "\"hi\"");
    assert_eq!(to_json_string(""), "\"\"");
    assert_eq!(to_json_string("Service is overloaded, try again later."), "\"Service is overloaded, try again later.\"");
}

#[test]
fn quotes_backslashes_and_controls_are_escaped() {
    assert_eq!(to_json_string("a\"b"), "\"a\\\"b\"");
    assert_eq!(to_json_string("a\\b"), "\"a\\\\b\"");
    assert_eq!(to_json_string("\u{8}\t\n\u{c}\r"), "\"\\b\\t\\n\\f\\r\"");
    assert_eq!(to_json_string("\u{0}\u{1}\u{b}\u{1f}"), "\"\\u0000\\u0001\\u000b\\u001f\"");
}

#[test]
fn everything_else_is_copied() {
    assert_eq!(to_json_string("/ \u{7f} é 日本 \u{1F600} '"), "\"/ \u{7f} é 日本 \u{1F600} '\"");
}

#[test]
fn every_character_below_u0080_is_written_as_specified() {
    for code in 0u32..0x80 {
        let c = char::from_u32(code).unwrap();
        let expected = match c {
            '"' => "\\\"".to_string(),
            '\\' => "\\\\".to_string(),
            '\u{8}' => "\\b".to_string(),
            '\t' => "\\t".to_string(),
            '\n' => "\\n".to_string(),
            '\u{c}' => "\\f".to_string(),
            '\r' => "\\r".to_string(),
            c if code < 0x20 => format!("\\u00{}{}", char::from_digit(c as u32 / 16, 16).unwrap(), char::from_digit(c as u32 % 16, 16).unwrap()),
            c => c.to_string(),
        };
        assert_eq!(to_json_string(&c.to_string()), format!("\"{}\"", expected));
    }
}

#[test]
fn numbers_are_written_in_decimal() {
    for (n, text) in [(0u64, "0"), (7, "7"), (10, "10"), (200, "200"), (503, "503"), (65535, "65535"), (u64::MAX, "18446744073709551615")] {
        let mut out = String::from("n=");
        push_decimal(&mut out, n);
        assert_eq!(out, format!("n={}", text));
    }
}
