use groq_format::literal::{escape_string, format_float, format_integer};

#[test]
fn plain_text_is_not_changed() {
    assert_eq!(escape_string("hello world"), "hello world");
    assert_eq!(escape_string(""), "");
    assert_eq!(escape_string("caf\u{e9} \u{1F30D}"), "caf\u{e9} \u{1F30D}");
}

#[test]
fn quote_backslash_and_newline_are_escaped() {
    assert_eq!(escape_string("\"\\\n"), "\\\"\\\\\\n");
}

#[test]
fn carriage_return_and_tab_are_escaped() {
    assert_eq!(escape_string("a\rb\tc"), "a\\rb\\tc");
}

#[test]
fn other_control_characters_get_four_hex_digits() {
    assert_eq!(escape_string("\u{0}"), "\\u0000");
    assert_eq!(escape_string("\u{1}"), "\\u0001");
    assert_eq!(escape_string("\u{8}"), "\\u0008");
    assert_eq!(escape_string("\u{b}"), "\\u000b");
    assert_eq!(escape_string("\u{1f}"), "\\u001f");
    assert_eq!(escape_string("\u{7f}"), "\\u007f");
    assert_eq!(escape_string("\u{80}"), "\\u0080");
    assert_eq!(escape_string("\u{9f}"), "\\u009f");
}

#[test]
fn neighbours_of_the_control_ranges_are_kept() {
    assert_eq!(escape_string(" "), " ");
    assert_eq!(escape_string("~"), "~");
    assert_eq!(escape_string("\u{a0}"), "\u{a0}");
}

#[test]
fn escape_agrees_with_is_control_on_every_character_below_0x200() {
    for code in 0u32..0x200 {
        let ch = char::from_u32(code).unwrap();
        let escaped = escape_string(&ch.to_string());
        let expected = match ch {
            '"' => "\\\"".to_string(),
            '\\' => "\\\\".to_string(),
            '\n' => "\\n".to_string(),
            '\r' => "\\r".to_string(),
            '\t' => "\\t".to_string(),
            c if c.is_control() => format!("\\u{:04x}", c as u32),
            c => c.to_string(),
        };
        assert_eq!(escaped, expected);
    }
}

#[test]
fn escaped_text_reads_back_to_the_same_text() {
    let plain = "\"\\\n";
    let escaped = escape_string(plain);
    let mut read = String::new();
    let mut chars = escaped.chars();
    while let Some(c) = chars.next() {
        if c == '\\' {
            match chars.next().unwrap() {
                'n' => read.push('\n'),
                other => read.push(other),
            }
        } else {
            read.push(c);
        }
    }
    assert_eq!(read, plain);
}

#[test]
fn whole_float_gets_a_decimal_point() {
    assert_eq!(format_float(&format!("{}", 3.0f64)), "3.0");
    assert_eq!(format_float(&format!("{}", -2.0f64)), "-2.0");
    assert_eq!(format_float(&format!("{}", 0.0f64)), "0.0");
    assert_eq!(format_float("1"), "1.0");
}

#[test]
fn float_with_fraction_is_kept() {
    assert_eq!(format_float(&format!("{}", 1.5f64)), "1.5");
    assert_eq!(format_float(&format!("{}", 0.1f64)), "0.1");
    assert_eq!(format_float("2.50"), "2.50");
}

#[test]
fn float_with_exponent_is_kept() {
    assert_eq!(format_float("1e21"), "1e21");
    assert_eq!(format_float("1E21"), "1E21");
    assert_eq!(format_float(&format!("{:e}", 1500.0f64)), "1.5e3");
}

#[test]
fn float_that_is_no_number_still_gets_a_decimal_point() {
    assert_eq!(format_float(&format!("{}", f64::NAN)), "NaN.0");
    assert_eq!(format_float(&format!("{}", f64::INFINITY)), "inf.0");
    assert_eq!(format_float(""), ".0");
}

#[test]
fn integers_render_in_decimal() {
    assert_eq!(format_integer(0), "0");
    assert_eq!(format_integer(7), "7");
    assert_eq!(format_integer(10), "10");
    assert_eq!(format_integer(1234567890), "1234567890");
    assert_eq!(format_integer(-1), "-1");
    assert_eq!(format_integer(-120), "-120");
}

#[test]
fn extreme_integers_render_in_decimal() {
    assert_eq!(format_integer(i64::MAX), "9223372036854775807");
    assert_eq!(format_integer(i64::MIN), "-9223372036854775808");
}

#[test]
fn integers_render_as_std_does() {
    for value in [-1000i64, -99, -10, -9, 9, 99, 100, 101, 999, 1000, 65535] {
        assert_eq!(format_integer(value), value.to_string());
    }
}
