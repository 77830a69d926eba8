use updown::client::status_line;
use updown::json::{JsonObject, JsonValue};
use updown::output::{
    format_axi_confirm, format_axi_detail, format_axi_error, format_axi_list, format_kv, format_table, truncate_field,
    OutputMode,
};
use updown::text::{decimal_string, join_strings, parse_u32, str_less, text_contains};

#[test]
fn test_output_mode_from_flag() {
    assert_eq!(OutputMode::from_json_flag(true), OutputMode::Json);
    assert_eq!(OutputMode::from_json_flag(false), OutputMode::Table);
}

#[test]
fn from_flags_defaults_to_axi() {
    assert_eq!(OutputMode::from_flags(false, false), OutputMode::Axi);
    assert_eq!(OutputMode::from_flags(false, true), OutputMode::Table);
    assert_eq!(OutputMode::from_flags(true, false), OutputMode::Json);
    assert_eq!(OutputMode::from_flags(true, true), OutputMode::Json);
}

#[test]
fn test_truncate_field_short() {
    assert_eq!(truncate_field("hello", 200), "hello");
}

#[test]
fn test_truncate_field_exact() {
    let s = "a".repeat(200);
    assert_eq!(truncate_field(&s, 200), s);
}

#[test]
fn test_truncate_field_long() {
    let s = "a".repeat(300);
    let result = truncate_field(&s, 200);
    assert!(result.len() < 300);
    assert!(result.ends_with("[300]"));
    assert!(result.contains("..."));
    assert_eq!(result, format!("{}...[300]", "a".repeat(192)));
    assert_eq!(result.len(), 200);
}

#[test]
fn truncate_keeps_whole_characters() {
    // 100 two-byte characters: 200 bytes fit.
    let fits = "é".repeat(100);
    assert_eq!(truncate_field(&fits, 200), fits);
    // 150 two-byte characters are 300 bytes: the cut lands inside the 97th character.
    let long = "é".repeat(150);
    let result = truncate_field(&long, 200);
    assert_eq!(result, format!("{}...[300]", "é".repeat(96)));
    assert!(result.len() <= 200);
}

#[test]
fn axi_list_layout() {
    let hints = vec!["checks get <token>".to_string()];
    let out = format_axi_list(Some("checks[2]{token,status}:\n  abc,up\n  def,down"), "checks", 2, "2 checks, 1 down", &hints);
    assert_eq!(
        out,
        "summary: 2 checks, 1 down\nchecks[2]{token,status}:\n  abc,up\n  def,down\nhelp[checks get <token>]"
    );
}

#[test]
fn axi_list_empty() {
    let hints = vec!["checks create --url <url>".to_string()];
    let out = format_axi_list(Some("ignored"), "checks", 0, "0 checks", &hints);
    assert_eq!(out, "summary: 0 checks\nchecks[0]:\nhelp[checks create --url <url>]");
}

#[test]
fn axi_list_encoding_error() {
    let out = format_axi_list(None, "nodes", 3, "3 nodes across 2 countries", &Vec::new());
    assert_eq!(out, "summary: 3 nodes across 2 countries\nnodes[3]: <encoding error>\n");
}

#[test]
fn axi_detail_and_confirm() {
    let hints = vec!["checks update abc".to_string()];
    assert_eq!(format_axi_detail(Some("token: abc\n"), &hints), "token: abc\nhelp[checks update abc]");
    assert_eq!(format_axi_detail(None, &Vec::new()), "<encoding error>\n");
    let hints = vec!["checks get abc1".to_string(), "checks list".to_string()];
    assert_eq!(
        format_axi_confirm("Check created: abc1", &hints),
        "Check created: abc1\nhelp[checks get abc1, checks list]"
    );
}

#[test]
fn axi_error_table() {
    assert_eq!(
        format_axi_error(401, "Authentication failed."),
        "error{code,message}:\n  401,Authentication failed."
    );
}

#[test]
fn kv_lines_align_keys() {
    let pairs = vec![
        ("Token".to_string(), "abc".to_string()),
        ("URL".to_string(), "https://example.com".to_string()),
        ("Enabled".to_string(), "-".to_string()),
    ];
    assert_eq!(
        format_kv(&pairs),
        "  Token:  abc\n    URL:  https://example.com\nEnabled:  -\n"
    );
    assert_eq!(format_kv(&Vec::new()), "");
}

#[test]
fn status_line_with_and_without_reason() {
    assert_eq!(status_line(404, &Some("Not Found".to_string())), "404 Not Found");
    assert_eq!(status_line(799, &None), "799 <unknown status code>");
}

#[test]
fn decimals_and_parsing() {
    assert_eq!(decimal_string(0), "0");
    assert_eq!(decimal_string(3600), "3600");
    assert_eq!(decimal_string(u64::MAX), "18446744073709551615");
    assert_eq!(parse_u32("300"), Some(300));
    assert_eq!(parse_u32("+60"), Some(60));
    assert_eq!(parse_u32("4294967295"), Some(u32::MAX));
    assert_eq!(parse_u32("4294967296"), None);
    assert_eq!(parse_u32(""), None);
    assert_eq!(parse_u32("1.0"), None);
    assert_eq!(parse_u32("-1"), None);
}

#[test]
fn text_helpers() {
    assert!(text_contains("Error: No API key found. Pass", "No API key found"));
    assert!(!text_contains("abc", "abcd"));
    assert!(text_contains("abc", ""));
    assert!(str_less("abc", "abd"));
    assert!(str_less("ab", "abc"));
    assert!(!str_less("abc", "abc"));
    assert!(!str_less("b", "abc"));
    let parts = vec!["a".to_string(), "b".to_string(), "c".to_string()];
    assert_eq!(join_strings(&parts, ", "), "a, b, c");
    assert_eq!(join_strings(&Vec::new(), ", "), "");
}

#[test]
fn json_object_insert_then_read() {
    let mut o = JsonObject::new();
    o.insert("url".to_string(), JsonValue::Str("https://a".to_string()));
    o.insert("period".to_string(), JsonValue::UInt(60));
    o.insert("url".to_string(), JsonValue::Str("https://b".to_string()));
    assert_eq!(o.len(), 2);
    match o.get("url") {
        Some(JsonValue::Str(s)) => assert_eq!(s, "https://b"),
        _ => panic!("url missing"),
    }
    match o.get("period") {
        Some(JsonValue::UInt(n)) => assert_eq!(*n, 60),
        _ => panic!("period missing"),
    }
    assert!(o.get("alias").is_none());
}

#[test]
fn tables_note_when_empty() {
    assert_eq!(format_table(0, "+--+"), "No results.\n");
    assert_eq!(format_table(2, "| a |\n| b |"), "| a |\n| b |\n");
}

#[test]
fn decimal_round_trip() {
    for n in [0u32, 7, 10, 60, 3600, 65535, 4294967295] {
        assert_eq!(parse_u32(&decimal_string(n as u64)), Some(n));
    }
}

#[test]
fn joined_check_tokens_split_back() {
    let tokens = vec!["abc123".to_string(), "def,456".to_string(), " x".to_string()];
    let joined = join_strings(&tokens, ", ");
    let back: Vec<String> = joined.split(", ").map(|t| t.to_string()).collect();
    assert_eq!(back, tokens);
}
