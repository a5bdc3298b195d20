use love::{is_allowed, sanitize_input, validate_message, MAX_MESSAGE_LENGTH};

#[test]
fn test_sanitize_normal_ascii() {
    let input = "Hello World";
    let result = sanitize_input(input);
    assert_eq!(result, "Hello World");
}

#[test]
fn test_sanitize_ansi_escape_removed() {
    let input = "\x1b[31mRed\x1b[0m";
    let result = sanitize_input(input);
    assert_eq!(result, "[31mRed[0m");
}

#[test]
fn test_sanitize_bell_character_removed() {
    let input = "\x07Bell";
    let result = sanitize_input(input);
    assert_eq!(result, "Bell");
}

#[test]
fn test_sanitize_null_byte_removed() {
    let input = "Hello\x00World";
    let result = sanitize_input(input);
    assert_eq!(result, "HelloWorld");
}

#[test]
fn test_sanitize_terminal_title_injection() {
    let input = "\x1b]0;Evil\x07";
    let result = sanitize_input(input);
    assert_eq!(result, "]0;Evil");
}

#[test]
fn test_sanitize_screen_clear_injection() {
    let input = "\x1b[2J\x1b[H";
    let result = sanitize_input(input);
    assert_eq!(result, "[2J[H");
}

#[test]
fn test_sanitize_unicode_emoji_removed() {
    let input = "❤️💜";
    let result = sanitize_input(input);
    assert_eq!(result, "");
}

#[test]
fn test_sanitize_tab_and_newline_preserved() {
    let input = "Line1\tTab\nLine2";
    let result = sanitize_input(input);
    assert_eq!(result, "Line1\tTab\nLine2");
}

#[test]
fn test_sanitize_delete_character_removed() {
    let input = "Text\x7FMore";
    let result = sanitize_input(input);
    assert_eq!(result, "TextMore");
}

#[test]
fn test_sanitize_c1_control_codes_removed() {
    let input = "Test\u{009B}More";
    let result = sanitize_input(input);
    assert_eq!(result, "TestMore");
}

#[test]
fn test_sanitize_mixed_attack() {
    let input = "\x1b[31m\x00\x07Evil\x1b[0m";
    let result = sanitize_input(input);
    assert_eq!(result, "[31mEvil[0m");
}

#[test]
fn test_sanitize_empty_string() {
    let input = "";
    let result = sanitize_input(input);
    assert_eq!(result, "");
}

#[test]
fn test_validate_normal_message() {
    let input = "I love you";
    let result = validate_message(input);
    assert!(result.is_ok());
    assert_eq!(result.unwrap(), "I love you");
}

#[test]
fn test_validate_message_max_length() {
    let input = "a".repeat(100);
    let result = validate_message(&input);
    assert!(result.is_ok());
}

#[test]
fn test_validate_message_too_long() {
    let input = "a".repeat(101);
    let result = validate_message(&input);
    assert!(result.is_err());
    assert!(result.unwrap_err().contains("Message too long"));
}

#[test]
fn test_validate_dos_attack_billion_chars() {
    let input = "a".repeat(1000);
    let result = validate_message(&input);
    assert!(result.is_err());
}

#[test]
fn test_validate_with_escape_sequences() {
    let input = "Hello\x1b[31mWorld";
    let result = validate_message(input);
    assert!(result.is_ok());
    assert_eq!(result.unwrap(), "Hello[31mWorld");
}

#[test]
fn test_validate_empty_message() {
    let input = "";
    let result = validate_message(input);
    assert!(result.is_ok());
    assert_eq!(result.unwrap(), "");
}

#[test]
fn test_validate_unicode_message() {
    let input = "愛してる💜";
    let result = validate_message(input);
    assert!(result.is_ok());
    assert_eq!(result.unwrap(), "");
}

#[test]
fn sanitize_output_is_short_and_clean() {
    let input = "a\x1b\u{7f}b\u{9b}\tc\n❤\rd";
    let result = sanitize_input(input);
    assert_eq!(result, "ab\tc\nd");
    assert!(result.chars().count() <= input.chars().count());
    assert!(result.chars().all(is_allowed));
}

#[test]
fn sanitize_twice_equals_once() {
    for input in ["", "plain", "\x1b[2J\x1b[H", "x\u{0}y\u{9b}z💜", "\t\n~ "] {
        let once = sanitize_input(input);
        assert_eq!(sanitize_input(&once), once);
    }
}

#[test]
fn allowed_character_edges() {
    assert!(is_allowed(' '));
    assert!(is_allowed('~'));
    assert!(is_allowed('\t'));
    assert!(is_allowed('\n'));
    assert!(!is_allowed('\u{1f}'));
    assert!(!is_allowed('\u{7f}'));
    assert!(!is_allowed('\r'));
    assert!(!is_allowed('é'));
}

#[test]
fn validate_limit_error_names_the_limit() {
    assert_eq!(MAX_MESSAGE_LENGTH, 100);
    let err = validate_message(&"b".repeat(101)).unwrap_err();
    assert_eq!(err, "Message too long (max 100 characters)");
    assert!(err.contains("100"));
}

#[test]
fn validate_counts_characters_not_bytes() {
    let input = "é".repeat(100);
    assert_eq!(validate_message(&input), Ok(String::new()));
    let input = "é".repeat(101);
    assert!(validate_message(&input).is_err());
}

#[test]
fn validate_sanitises_accepted_message() {
    assert_eq!(validate_message("Hi\x07 there\u{1b}"), Ok("Hi there".to_string()));
}
