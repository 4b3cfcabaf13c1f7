use tvoice::config::{AppConfig, ConfigError};

#[test]
fn missing_key_is_an_error() {
    let r = AppConfig::from_values(None, Some("m".to_string()), None, None, None);
    assert_eq!(r.unwrap_err(), ConfigError::MissingApiKey);
}

#[test]
fn defaults_fill_unset_values() {
    let c = AppConfig::from_values(Some("k".to_string()), None, None, None, None).unwrap();
    assert_eq!(c.openrouter.api_key, "k");
    assert_eq!(c.openrouter.model, "openai/gpt-audio-mini");
    assert_eq!(
        c.openrouter.prompt,
        "Transcribe this audio verbatim. Return only the spoken words as plain text."
    );
    assert_eq!(c.openrouter.app_title, "tvoice");
    assert_eq!(c.openrouter.http_referer, None);
}

#[test]
fn given_values_are_kept_as_they_are() {
    let c = AppConfig::from_values(
        Some("k".to_string()),
        Some(" m ".to_string()),
        Some("p".to_string()),
        Some("t".to_string()),
        Some("r".to_string()),
    )
    .unwrap();
    assert_eq!(c.openrouter.model, " m ");
    assert_eq!(c.openrouter.prompt, "p");
    assert_eq!(c.openrouter.app_title, "t");
    assert_eq!(c.openrouter.http_referer.as_deref(), Some("r"));
}
