use groq_format::query::query_body;
use groq_format::{FormatError, DEFAULT_WIDTH};

#[test]
fn empty_query_is_refused() {
    assert!(matches!(query_body(""), Err(FormatError::EmptyQuery)));
}

#[test]
fn blank_query_is_refused() {
    assert!(matches!(query_body("   "), Err(FormatError::EmptyQuery)));
    assert!(matches!(query_body(" \t\r\n"), Err(FormatError::EmptyQuery)));
    assert!(matches!(query_body("\u{a0}\u{2003}\u{3000}"), Err(FormatError::EmptyQuery)));
}

#[test]
fn query_without_surrounding_whitespace_is_kept() {
    assert_eq!(query_body("*[a == 1]").unwrap(), "*[a == 1]");
    assert_eq!(query_body("*").unwrap(), "*");
}

#[test]
fn surrounding_whitespace_is_cut_off() {
    assert_eq!(query_body("  *[a == 1]\n").unwrap(), "*[a == 1]");
    assert_eq!(query_body("\n\t* ").unwrap(), "*");
    assert_eq!(query_body("*  ").unwrap(), "*");
    assert_eq!(query_body("  *").unwrap(), "*");
}

#[test]
fn whitespace_inside_is_kept() {
    assert_eq!(query_body(" a  b\tc ").unwrap(), "a  b\tc");
}

#[test]
fn unicode_text_is_cut_at_character_boundaries() {
    assert_eq!(query_body("\u{2003}caf\u{e9} \u{1F30D}\u{2003}").unwrap(), "caf\u{e9} \u{1F30D}");
    assert_eq!(query_body(" \u{e9} ").unwrap(), "\u{e9}");
}

#[test]
fn query_body_agrees_with_trim() {
    let samples = [
        "",
        " ",
        "x",
        " x",
        "x ",
        " x y ",
        "\u{b}x\u{c}",
        "\u{85}x\u{1680}",
        "\u{2028}x\u{2029}\u{202f}\u{205f}",
        "\u{200b}x",
        "\u{1c}x\u{1f}",
        "\u{feff}x",
    ];
    for sample in samples {
        match query_body(sample) {
            Ok(body) => {
                assert!(!sample.trim().is_empty());
                assert_eq!(body, sample.trim());
            }
            Err(error) => {
                assert!(matches!(error, FormatError::EmptyQuery));
                assert!(sample.trim().is_empty());
            }
        }
    }
}

#[test]
fn whitespace_is_what_std_calls_whitespace() {
    for code in 0u32..0x3100 {
        if let Some(ch) = char::from_u32(code) {
            let blank = query_body(&ch.to_string()).is_err();
            assert_eq!(blank, ch.is_whitespace(), "U+{:04X}", code);
        }
    }
}

#[test]
fn error_messages() {
    assert_eq!(FormatError::EmptyQuery.message(), "no query provided");
    assert_eq!(
        FormatError::Parse("unexpected token".to_string()).message(),
        "parse error: unexpected token"
    );
    assert_eq!(FormatError::Parse(String::new()).message(), "parse error: ");
}

#[test]
fn default_width_is_eighty() {
    assert_eq!(DEFAULT_WIDTH, 80);
}
