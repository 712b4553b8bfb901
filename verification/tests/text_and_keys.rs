use fixtext::keys::{api_key_from_env_file, api_key_from_sources, key_of_line};
use fixtext::text::{
    chars_of, concat3, contains_char, is_blank, is_whitespace, starts_with, str_eq, trim,
    trim_class, CharClass,
};

#[test]
fn trim_removes_unicode_white_space_at_both_ends() {
    assert_eq!(trim("  hello world \t\n"), "hello world");
    assert_eq!(trim("\u{3000}x\u{a0}"), "x");
    assert_eq!(trim("   "), "");
    assert_eq!(trim(""), "");
    assert_eq!(trim("a b"), "a b");
}

#[test]
fn trim_quotes_strips_every_quote_at_the_ends() {
    assert_eq!(trim_class("\"'abc'\"", CharClass::Quote), "abc");
    assert_eq!(trim_class(" \"abc\"", CharClass::Quote), " \"abc");
    assert_eq!(trim_class("''", CharClass::Quote), "");
}

#[test]
fn blank_means_white_space_only() {
    assert!(is_blank(""));
    assert!(is_blank(" \t\r\n\u{2028}"));
    assert!(!is_blank("  x "));
}

#[test]
fn whitespace_matches_std() {
    for c in ['\t', '\n', '\u{b}', '\u{c}', '\r', ' ', '\u{85}', '\u{a0}', '\u{1680}', '\u{2000}', '\u{200a}', '\u{2028}', '\u{2029}', '\u{202f}', '\u{205f}', '\u{3000}', 'a', '\u{200b}', '\u{feff}', '0', '\u{0}'] {
        assert_eq!(is_whitespace(c), c.is_whitespace(), "{:?}", c);
    }
}

#[test]
fn string_helpers() {
    assert!(starts_with("openai/gpt-oss-120b", "openai/gpt-oss-"));
    assert!(!starts_with("openai", "openai/"));
    assert!(str_eq("groq", "groq"));
    assert!(!str_eq("groq", "groq "));
    assert!(contains_char("a/b", '/'));
    assert!(!contains_char("ab", '/'));
    assert_eq!(concat3("\"", "x", "\""), "\"x\"");
    assert_eq!(chars_of("añ😀"), vec!['a', 'ñ', '😀']);
}

#[test]
fn env_line_sets_key_after_trimming_quotes_then_spaces() {
    assert_eq!(key_of_line("GEMINI_API_KEY=abc"), Some("abc".to_string()));
    assert_eq!(key_of_line("  GEMINI_API_KEY=\"abc\"  "), Some("abc".to_string()));
    assert_eq!(key_of_line("GEMINI_API_KEY=' x '"), Some("x".to_string()));
    assert_eq!(key_of_line("GEMINI_API_KEY= \"k\""), Some("\"k".to_string()));
    assert_eq!(key_of_line("GEMINI_API_KEY=\"\""), None);
    assert_eq!(key_of_line("export GEMINI_API_KEY=abc"), None);
    assert_eq!(key_of_line("GEMINI_API_KEY"), None);
}

#[test]
fn env_file_first_line_with_a_key_wins() {
    let text = "FOO=1\nGEMINI_API_KEY=\n\r\nGEMINI_API_KEY='first'\r\nGEMINI_API_KEY=second\n";
    assert_eq!(api_key_from_env_file(text), Some("first".to_string()));
    assert_eq!(api_key_from_env_file("A=1\nB=2"), None);
    assert_eq!(api_key_from_env_file(""), None);
    assert_eq!(api_key_from_env_file("GEMINI_API_KEY=last"), Some("last".to_string()));
}

#[test]
fn environment_variable_comes_first_and_is_kept_as_is() {
    let files = vec![None, Some("GEMINI_API_KEY=z".to_string())];
    assert_eq!(api_key_from_sources(Some(" env ".to_string()), &files), Some(" env ".to_string()));
    assert_eq!(api_key_from_sources(Some("  ".to_string()), &files), Some("z".to_string()));
    assert_eq!(api_key_from_sources(None, &files), Some("z".to_string()));
    let nothing = vec![Some("X=1".to_string()), None];
    assert_eq!(api_key_from_sources(None, &nothing), None);
    let both = vec![Some("GEMINI_API_KEY=one".to_string()), Some("GEMINI_API_KEY=two".to_string())];
    assert_eq!(api_key_from_sources(None, &both), Some("one".to_string()));
}
