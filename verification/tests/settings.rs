use tvoice::settings::{AppSettings, DEFAULT_APP_TITLE, DEFAULT_MODEL, DEFAULT_PROMPT};

fn sample() -> AppSettings {
    AppSettings {
        openrouter_api_key: "  key\n".to_string(),
        openrouter_model: "   ".to_string(),
        prompt: "\tSay it\t".to_string(),
        app_title: "".to_string(),
        http_referer: Some("  ".to_string()),
    }
}

#[test]
fn defaults() {
    let s = AppSettings::default();
    assert_eq!(s.openrouter_api_key, "");
    assert_eq!(s.openrouter_model, "openai/gpt-audio-mini");
    assert_eq!(
        s.prompt,
        "Transcribe this audio verbatim. Return only the spoken words as plain text."
    );
    assert_eq!(s.app_title, "tvoice");
    assert_eq!(s.http_referer, None);
}

#[test]
fn normalize_model_prompt_title() {
    assert_eq!(AppSettings::normalize_model("  anthropic/x "), "anthropic/x");
    assert_eq!(AppSettings::normalize_model(" \n"), DEFAULT_MODEL);
    assert_eq!(AppSettings::normalize_prompt(""), DEFAULT_PROMPT);
    assert_eq!(AppSettings::normalize_prompt(" Be brief. "), "Be brief.");
    assert_eq!(AppSettings::normalize_app_title("\u{a0}"), DEFAULT_APP_TITLE);
    assert_eq!(AppSettings::normalize_app_title(" my app"), "my app");
}

#[test]
fn normalize_optional_drops_blank() {
    assert_eq!(AppSettings::normalize_optional(" \t "), None);
    assert_eq!(AppSettings::normalize_optional(" https://a.b ").as_deref(), Some("https://a.b"));
}

#[test]
fn normalize_for_save_fills_defaults_and_trims() {
    let mut s = sample();
    s.normalize_for_save();
    assert_eq!(s.openrouter_api_key, "key");
    assert_eq!(s.openrouter_model, DEFAULT_MODEL);
    assert_eq!(s.prompt, "Say it");
    assert_eq!(s.app_title, DEFAULT_APP_TITLE);
    assert_eq!(s.http_referer, None);
}

#[test]
fn normalize_for_save_twice_is_once() {
    let mut once = sample();
    once.http_referer = Some(" r ".to_string());
    once.normalize_for_save();
    let mut twice = once.clone();
    twice.normalize_for_save();
    assert_eq!(format!("{:?}", once), format!("{:?}", twice));
    assert_eq!(twice.http_referer.as_deref(), Some("r"));
}

#[test]
fn default_settings_are_already_normalized() {
    let d = AppSettings::default();
    let mut n = d.clone();
    n.normalize_for_save();
    assert_eq!(format!("{:?}", d), format!("{:?}", n));
}

#[test]
fn from_env_values_uses_defaults_where_unset() {
    let s = AppSettings::from_env_values(None, None, None, None, None);
    assert_eq!(format!("{:?}", s), format!("{:?}", AppSettings::default()));
}

#[test]
fn from_env_values_normalizes_all_but_the_key() {
    let s = AppSettings::from_env_values(
        Some(" k ".to_string()),
        Some(" m ".to_string()),
        Some("".to_string()),
        Some(" t ".to_string()),
        Some(" ".to_string()),
    );
    assert_eq!(s.openrouter_api_key, " k ");
    assert_eq!(s.openrouter_model, "m");
    assert_eq!(s.prompt, DEFAULT_PROMPT);
    assert_eq!(s.app_title, "t");
    assert_eq!(s.http_referer, None);
}

#[test]
fn apply_form_sets_and_normalizes() {
    let mut s = AppSettings::default();
    s.http_referer = Some("https://x.y".to_string());
    s.apply_form(" new-key ".to_string(), "".to_string(), " p ".to_string());
    assert_eq!(s.openrouter_api_key, "new-key");
    assert_eq!(s.openrouter_model, DEFAULT_MODEL);
    assert_eq!(s.prompt, "p");
    assert_eq!(s.app_title, "tvoice");
    assert_eq!(s.http_referer.as_deref(), Some("https://x.y"));
}
