use rust_gigachat_webapp::usecases::validate_question;
use rust_gigachat_webapp::{ApiBaseUrl, AppConfig, DomainError, Question, UseCaseError};

#[test]
fn question_requires_text() {
    assert!(Question::try_new("   ").is_err());
    assert!(Question::try_new("Что такое Rust?").is_ok());
}

#[test]
fn api_base_url_join_handles_slashes() {
    let base = ApiBaseUrl::try_new("http://localhost:8000/").unwrap();
    assert_eq!(base.join("/health"), "http://localhost:8000/health");
    assert_eq!(base.join("ask"), "http://localhost:8000/ask");
}

#[test]
fn blank_question_is_refused_with_empty_question() {
    assert_eq!(Question::try_new(""), Err(DomainError::EmptyQuestion));
    assert_eq!(Question::try_new(" \t\n\r"), Err(DomainError::EmptyQuestion));
    assert_eq!(Question::try_new("\u{3000}\u{A0}\u{2028}"), Err(DomainError::EmptyQuestion));
}

#[test]
fn question_keeps_its_text_untrimmed() {
    let q = Question::try_new("  hi  ").unwrap();
    assert_eq!(q.as_str(), "  hi  ");
    assert_eq!(q.clone().as_str(), "  hi  ");
}

#[test]
fn blank_base_url_is_refused_with_empty_base_url() {
    assert_eq!(ApiBaseUrl::try_new("   "), Err(DomainError::EmptyBaseUrl));
    assert_eq!(ApiBaseUrl::try_new(""), Err(DomainError::EmptyBaseUrl));
    let u = ApiBaseUrl::try_new(" http://x ").unwrap();
    assert_eq!(u.as_str(), " http://x ");
}

#[test]
fn join_gives_one_slash_for_every_form() {
    let with = ApiBaseUrl::try_new("http://localhost:8000/").unwrap();
    let without = ApiBaseUrl::try_new("http://localhost:8000").unwrap();
    assert_eq!(without.join("health"), "http://localhost:8000/health");
    assert_eq!(with.join("/health"), without.join("health"));
    assert_eq!(with.join("health"), without.join("/health"));
}

#[test]
fn join_strips_only_one_slash_on_each_side() {
    let base = ApiBaseUrl::try_new("http://h//").unwrap();
    assert_eq!(base.join("//p"), "http://h///p");
    assert_eq!(base.join(""), "http://h//");
}

#[test]
fn config_prefers_a_valid_saved_url() {
    let c = AppConfig::load(Some("http://saved".to_string()), Some("http://built".to_string()));
    assert_eq!(c.api_base_url.as_str(), "http://saved");
    let c = AppConfig::load(Some("  ".to_string()), Some("http://built".to_string()));
    assert_eq!(c.api_base_url.as_str(), "http://built");
    let c = AppConfig::load(None, None);
    assert_eq!(c.api_base_url.as_str(), "http://127.0.0.1:8000");
    let c = AppConfig::load(None, Some(" ".to_string()));
    assert_eq!(c.api_base_url.as_str(), "http://127.0.0.1:8000");
}

#[test]
fn default_base_url_uses_the_build_setting_or_the_fallback() {
    assert_eq!(AppConfig::default_base_url(None), "http://127.0.0.1:8000");
    assert_eq!(AppConfig::default_base_url(Some("http://b".to_string())), "http://b");
    assert_eq!(AppConfig::parse_base_url(""), Err(DomainError::EmptyBaseUrl));
    assert_eq!(AppConfig::parse_base_url("http://b").unwrap().as_str(), "http://b");
}

#[test]
fn white_space_agrees_with_std_on_every_char() {
    for c in (0u32..=0x10FFFF).filter_map(char::from_u32) {
        assert_eq!(rust_gigachat_webapp::text::is_white_space(c), c.is_whitespace(), "{:?}", c);
    }
    for s in ["", " ", " a ", "\u{205F}\u{85}", "\u{200B}"] {
        assert_eq!(rust_gigachat_webapp::text::is_blank(s), s.trim().is_empty());
    }
}

#[test]
fn validate_question_wraps_the_domain_error() {
    assert_eq!(validate_question("\t"), Err(UseCaseError::Domain(DomainError::EmptyQuestion)));
    assert_eq!(validate_question(" q").unwrap().as_str(), " q");
}
