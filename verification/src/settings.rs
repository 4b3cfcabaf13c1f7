use vstd::prelude::*;

use crate::text::{
    is_trimmed, lemma_trimmed_idempotent, lemma_trimmed_is_trimmed, trim, trimmed,
    trimmed_nonempty, trimmed_or,
};

verus! {

/// The model used where none is configured.
pub const DEFAULT_MODEL: &'static str = "openai/gpt-audio-mini";

/// The prompt sent with the audio where none is configured.
pub const DEFAULT_PROMPT: &'static str =
    "Transcribe this audio verbatim. Return only the spoken words as plain text.";

/// The title sent with each request where none is configured.
pub const DEFAULT_APP_TITLE: &'static str = "tvoice";

/// The user's settings, as edited in the settings window and saved to disk.
#[derive(Clone, Debug)]
pub struct AppSettings {
    pub openrouter_api_key: String,
    pub openrouter_model: String,
    pub prompt: String,
    pub app_title: String,
    pub http_referer: Option<String>,
}

/// The settings as plain character sequences.
pub struct SettingsModel {
    pub api_key: Seq<char>,
    pub model: Seq<char>,
    pub prompt: Seq<char>,
    pub app_title: Seq<char>,
    pub http_referer: Option<Seq<char>>,
}

/// The characters of an optional string.
pub open spec fn opt_view(o: Option<String>) -> Option<Seq<char>> {
    match o {
        Some(s) => Some(s@),
        None => None,
    }
}

impl View for AppSettings {
    type V = SettingsModel;

    open spec fn view(&self) -> SettingsModel {
        SettingsModel {
            api_key: self.openrouter_api_key@,
            model: self.openrouter_model@,
            prompt: self.prompt@,
            app_title: self.app_title@,
            http_referer: opt_view(self.http_referer),
        }
    }
}

/// The settings that hold before anything is configured.
pub open spec fn default_settings() -> SettingsModel {
    SettingsModel {
        api_key: Seq::empty(),
        model: DEFAULT_MODEL@,
        prompt: DEFAULT_PROMPT@,
        app_title: DEFAULT_APP_TITLE@,
        http_referer: None,
    }
}

/// A model name as it is stored: trimmed, or the default model where blank.
pub open spec fn normalized_model(value: Seq<char>) -> Seq<char> {
    trimmed_or(value, DEFAULT_MODEL@)
}

/// A prompt as it is stored: trimmed, or the default prompt where blank.
pub open spec fn normalized_prompt(value: Seq<char>) -> Seq<char> {
    trimmed_or(value, DEFAULT_PROMPT@)
}

/// An app title as it is stored: trimmed, or the default title where blank.
pub open spec fn normalized_app_title(value: Seq<char>) -> Seq<char> {
    trimmed_or(value, DEFAULT_APP_TITLE@)
}

/// An optional value as it is stored: trimmed, and absent where blank.
pub open spec fn normalized_optional(value: Option<Seq<char>>) -> Option<Seq<char>> {
    match value {
        Some(v) => trimmed_nonempty(v),
        None => None,
    }
}

/// The settings as they are written to disk.
pub open spec fn normalized_settings(s: SettingsModel) -> SettingsModel {
    SettingsModel {
        api_key: trimmed(s.api_key),
        model: normalized_model(s.model),
        prompt: normalized_prompt(s.prompt),
        app_title: normalized_app_title(s.app_title),
        http_referer: normalized_optional(s.http_referer),
    }
}

/// The settings stored when the settings window is saved: the current settings
/// with the key, model and prompt from the form, normalized.
pub open spec fn settings_after_form(
    current: SettingsModel,
    api_key: Seq<char>,
    model: Seq<char>,
    prompt: Seq<char>,
) -> SettingsModel {
    normalized_settings(SettingsModel { api_key, model, prompt, ..current })
}

/// The settings read from the environment: each variable that is set replaces
/// the default, the model, prompt and title normalized; the key is taken as it is.
pub open spec fn settings_from_env(
    api_key: Option<Seq<char>>,
    model: Option<Seq<char>>,
    prompt: Option<Seq<char>>,
    app_title: Option<Seq<char>>,
    http_referer: Option<Seq<char>>,
) -> SettingsModel {
    SettingsModel {
        api_key: match api_key {
            Some(k) => k,
            None => Seq::empty(),
        },
        model: match model {
            Some(m) => normalized_model(m),
            None => DEFAULT_MODEL@,
        },
        prompt: match prompt {
            Some(p) => normalized_prompt(p),
            None => DEFAULT_PROMPT@,
        },
        app_title: match app_title {
            Some(t) => normalized_app_title(t),
            None => DEFAULT_APP_TITLE@,
        },
        http_referer: normalized_optional(http_referer),
    }
}

fn trimmed_or_default(value: &str, default: &str) -> (r: String)
    ensures
        r@ == trimmed_or(value@, default@),
{
    let t = trim(value);
    if t.is_empty() {
        default.to_owned()
    } else {
        t.to_owned()
    }
}

impl Default for AppSettings {
    fn default() -> (r: Self)
        ensures
            r@ == default_settings(),
    {
        AppSettings {
            openrouter_api_key: String::new(),
            openrouter_model: DEFAULT_MODEL.to_owned(),
            prompt: DEFAULT_PROMPT.to_owned(),
            app_title: DEFAULT_APP_TITLE.to_owned(),
            http_referer: None,
        }
    }
}

impl AppSettings {
    /// The settings taken from the values of the environment variables
    /// `OPENROUTER_API_KEY`, `TVOICE_OPENROUTER_MODEL`, `TVOICE_OPENROUTER_PROMPT`,
    /// `TVOICE_APP_TITLE` and `TVOICE_HTTP_REFERER` (`None` where one is unset).
    pub fn from_env_values(
        api_key: Option<String>,
        model: Option<String>,
        prompt: Option<String>,
        app_title: Option<String>,
        http_referer: Option<String>,
    ) -> (r: AppSettings)
        ensures
            r@ == settings_from_env(
                opt_view(api_key),
                opt_view(model),
                opt_view(prompt),
                opt_view(app_title),
                opt_view(http_referer),
            ),
    {
        let mut settings = Self::default();
        if let Some(k) = api_key {
            settings.openrouter_api_key = k;
        }
        if let Some(m) = model {
            settings.openrouter_model = Self::normalize_model(m.as_str());
        }
        if let Some(p) = prompt {
            settings.prompt = Self::normalize_prompt(p.as_str());
        }
        if let Some(t) = app_title {
            settings.app_title = Self::normalize_app_title(t.as_str());
        }
        settings.http_referer = match &http_referer {
            Some(r) => Self::normalize_optional(r.as_str()),
            None => None,
        };
        settings
    }

    /// Trims every field; a blank model, prompt or title falls back to its default,
    /// and a blank referer is dropped.
    pub fn normalize_for_save(&mut self)
        ensures
            final(self)@ == normalized_settings(old(self)@),
    {
        self.openrouter_api_key = trim(self.openrouter_api_key.as_str()).to_owned();
        self.openrouter_model = Self::normalize_model(self.openrouter_model.as_str());
        self.prompt = Self::normalize_prompt(self.prompt.as_str());
        self.app_title = Self::normalize_app_title(self.app_title.as_str());
        self.http_referer = match &self.http_referer {
            Some(r) => Self::normalize_optional(r.as_str()),
            None => None,
        };
    }

    /// The model name trimmed, or the default model where it is blank.
    pub fn normalize_model(value: &str) -> (r: String)
        ensures
            r@ == normalized_model(value@),
    {
        trimmed_or_default(value, DEFAULT_MODEL)
    }

    /// The prompt trimmed, or the default prompt where it is blank.
    pub fn normalize_prompt(value: &str) -> (r: String)
        ensures
            r@ == normalized_prompt(value@),
    {
        trimmed_or_default(value, DEFAULT_PROMPT)
    }

    /// The app title trimmed, or the default title where it is blank.
    pub fn normalize_app_title(value: &str) -> (r: String)
        ensures
            r@ == normalized_app_title(value@),
    {
        trimmed_or_default(value, DEFAULT_APP_TITLE)
    }

    /// The value trimmed, or `None` where it is blank.
    pub fn normalize_optional(value: &str) -> (r: Option<String>)
        ensures
            opt_view(r) == trimmed_nonempty(value@),
    {
        let t = trim(value);
        if t.is_empty() {
            None
        } else {
            Some(t.to_owned())
        }
    }

    /// What the settings window stores when Save is pressed: the current settings
    /// with the key, model and prompt from the form, then normalized.
    pub fn apply_form(&mut self, api_key: String, model: String, prompt: String)
        ensures
            final(self)@ == settings_after_form(old(self)@, api_key@, model@, prompt@),
    {
        self.openrouter_api_key = api_key;
        self.openrouter_model = model;
        self.prompt = prompt;
        self.normalize_for_save();
    }
}

/// The form of stored settings: every field trimmed, the model, prompt and title
/// never blank, and a referer, where there is one, never blank.
pub open spec fn is_normalized(s: SettingsModel) -> bool {
    &&& is_trimmed(s.api_key)
    &&& is_trimmed(s.model) && s.model.len() > 0
    &&& is_trimmed(s.prompt) && s.prompt.len() > 0
    &&& is_trimmed(s.app_title) && s.app_title.len() > 0
    &&& match s.http_referer {
        Some(r) => is_trimmed(r) && r.len() > 0,
        None => true,
    }
}

proof fn lemma_defaults_normalized()
    ensures
        is_trimmed(DEFAULT_MODEL@) && DEFAULT_MODEL@.len() > 0,
        is_trimmed(DEFAULT_PROMPT@) && DEFAULT_PROMPT@.len() > 0,
        is_trimmed(DEFAULT_APP_TITLE@) && DEFAULT_APP_TITLE@.len() > 0,
{
    reveal_strlit("openai/gpt-audio-mini");
    reveal_strlit("Transcribe this audio verbatim. Return only the spoken words as plain text.");
    reveal_strlit("tvoice");
}

proof fn lemma_trimmed_or_normalized(value: Seq<char>, default: Seq<char>)
    requires
        is_trimmed(default) && default.len() > 0,
    ensures
        is_trimmed(trimmed_or(value, default)) && trimmed_or(value, default).len() > 0,
        trimmed_or(trimmed_or(value, default), default) == trimmed_or(value, default),
{
    lemma_trimmed_is_trimmed(value);
    lemma_trimmed_idempotent(value);
    crate::text::lemma_trimmed_when_trimmed(default);
}

proof fn lemma_optional_normalized(value: Option<Seq<char>>)
    ensures
        normalized_optional(normalized_optional(value)) == normalized_optional(value),
        match normalized_optional(value) {
            Some(r) => is_trimmed(r) && r.len() > 0,
            None => true,
        },
{
    if let Some(v) = value {
        lemma_trimmed_is_trimmed(v);
        lemma_trimmed_idempotent(v);
    }
}

/// Whatever the settings were, saving leaves them in the stored form.
pub proof fn law_normalized_settings_are_normalized(s: SettingsModel)
    ensures
        is_normalized(normalized_settings(s)),
{
    lemma_defaults_normalized();
    lemma_trimmed_is_trimmed(s.api_key);
    lemma_trimmed_or_normalized(s.model, DEFAULT_MODEL@);
    lemma_trimmed_or_normalized(s.prompt, DEFAULT_PROMPT@);
    lemma_trimmed_or_normalized(s.app_title, DEFAULT_APP_TITLE@);
    lemma_optional_normalized(s.http_referer);
}

/// Normalizing settings a second time changes nothing.
pub proof fn law_normalize_idempotent(s: SettingsModel)
    ensures
        normalized_settings(normalized_settings(s)) == normalized_settings(s),
{
    lemma_defaults_normalized();
    lemma_trimmed_idempotent(s.api_key);
    lemma_trimmed_or_normalized(s.model, DEFAULT_MODEL@);
    lemma_trimmed_or_normalized(s.prompt, DEFAULT_PROMPT@);
    lemma_trimmed_or_normalized(s.app_title, DEFAULT_APP_TITLE@);
    lemma_optional_normalized(s.http_referer);
}

/// Settings in the stored form are left as they are by normalizing.
pub proof fn law_normalized_settings_are_fixed(s: SettingsModel)
    requires
        is_normalized(s),
    ensures
        normalized_settings(s) == s,
{
    crate::text::lemma_trimmed_when_trimmed(s.api_key);
    crate::text::lemma_trimmed_when_trimmed(s.model);
    crate::text::lemma_trimmed_when_trimmed(s.prompt);
    crate::text::lemma_trimmed_when_trimmed(s.app_title);
    if let Some(r) = s.http_referer {
        crate::text::lemma_trimmed_when_trimmed(r);
    }
}

/// The default settings are in the stored form but for their empty API key,
/// which is trimmed too.
pub proof fn law_default_settings_are_normalized()
    ensures
        is_normalized(default_settings()),
        normalized_settings(default_settings()) == default_settings(),
{
    lemma_defaults_normalized();
    law_normalized_settings_are_fixed(default_settings());
}

/// Settings read from the environment are in the stored form except that the
/// API key is taken as it is.
pub proof fn law_env_settings_are_normalized(
    api_key: Option<Seq<char>>,
    model: Option<Seq<char>>,
    prompt: Option<Seq<char>>,
    app_title: Option<Seq<char>>,
    http_referer: Option<Seq<char>>,
)
    ensures
        ({
            let s = settings_from_env(api_key, model, prompt, app_title, http_referer);
            is_normalized(SettingsModel { api_key: Seq::empty(), ..s })
        }),
{
    lemma_defaults_normalized();
    if let Some(m) = model {
        lemma_trimmed_or_normalized(m, DEFAULT_MODEL@);
    }
    if let Some(p) = prompt {
        lemma_trimmed_or_normalized(p, DEFAULT_PROMPT@);
    }
    if let Some(t) = app_title {
        lemma_trimmed_or_normalized(t, DEFAULT_APP_TITLE@);
    }
    lemma_optional_normalized(http_referer);
}

/// The stored form of a text field: the value trimmed where that leaves
/// something, else the field's default.
pub open spec fn trimmed_else(value: Seq<char>, default: Seq<char>, result: Seq<char>) -> bool {
    &&& trimmed(value).len() > 0 ==> result == trimmed(value)
    &&& trimmed(value).len() == 0 ==> result == default
}

/// The stored form of an optional field: the value trimmed where that leaves
/// something, else nothing.
pub open spec fn trimmed_else_none(value: Option<Seq<char>>, result: Option<Seq<char>>) -> bool {
    match value {
        None => result is None,
        Some(v) => {
            &&& trimmed(v).len() > 0 ==> result == Some(trimmed(v))
            &&& trimmed(v).len() == 0 ==> result is None
        },
    }
}

/// Saving keeps every value that is not blank, trimmed, and replaces only a
/// blank model, prompt or title by its default and drops only a blank referer;
/// the key is trimmed.
pub proof fn law_saved_fields(s: SettingsModel)
    ensures
        ({
            let n = normalized_settings(s);
            &&& n.api_key == trimmed(s.api_key)
            &&& trimmed_else(s.model, DEFAULT_MODEL@, n.model)
            &&& trimmed_else(s.prompt, DEFAULT_PROMPT@, n.prompt)
            &&& trimmed_else(s.app_title, DEFAULT_APP_TITLE@, n.app_title)
            &&& trimmed_else_none(s.http_referer, n.http_referer)
        }),
{
}

/// Each environment variable that is set decides its field: the key as it is,
/// the model, prompt and title trimmed (their defaults only where blank), the
/// referer trimmed (dropped where blank); unset variables leave the defaults.
pub proof fn law_env_fields(
    api_key: Option<Seq<char>>,
    model: Option<Seq<char>>,
    prompt: Option<Seq<char>>,
    app_title: Option<Seq<char>>,
    http_referer: Option<Seq<char>>,
)
    ensures
        ({
            let s = settings_from_env(api_key, model, prompt, app_title, http_referer);
            &&& api_key matches Some(k) ==> s.api_key == k
            &&& api_key is None ==> s.api_key == Seq::<char>::empty()
            &&& model matches Some(m) ==> trimmed_else(m, DEFAULT_MODEL@, s.model)
            &&& model is None ==> s.model == DEFAULT_MODEL@
            &&& prompt matches Some(p) ==> trimmed_else(p, DEFAULT_PROMPT@, s.prompt)
            &&& prompt is None ==> s.prompt == DEFAULT_PROMPT@
            &&& app_title matches Some(t) ==> trimmed_else(t, DEFAULT_APP_TITLE@, s.app_title)
            &&& app_title is None ==> s.app_title == DEFAULT_APP_TITLE@
            &&& trimmed_else_none(http_referer, s.http_referer)
        }),
{
}

/// Where every variable is set, the settings read from the environment are the
/// settings those values would be saved as, but for the key, which is kept as
/// it is.
pub proof fn law_env_is_saved_form(
    api_key: Seq<char>,
    model: Seq<char>,
    prompt: Seq<char>,
    app_title: Seq<char>,
    http_referer: Option<Seq<char>>,
)
    ensures
        ({
            let e = settings_from_env(
                Some(api_key),
                Some(model),
                Some(prompt),
                Some(app_title),
                http_referer,
            );
            let n = normalized_settings(
                SettingsModel { api_key, model, prompt, app_title, http_referer },
            );
            &&& e.model == n.model
            &&& e.prompt == n.prompt
            &&& e.app_title == n.app_title
            &&& e.http_referer == n.http_referer
            &&& e.api_key == api_key
        }),
{
}

/// The defaults are the documented ones.
pub proof fn law_default_values()
    ensures
        default_settings().api_key == Seq::<char>::empty(),
        default_settings().model == "openai/gpt-audio-mini"@,
        default_settings().prompt
            == "Transcribe this audio verbatim. Return only the spoken words as plain text."@,
        default_settings().app_title == "tvoice"@,
        default_settings().http_referer is None,
{
}

/// Saving the settings window stores the form's key trimmed, its model and
/// prompt trimmed (their defaults only where blank), and keeps the title and
/// referer of the current settings in their stored form.
pub proof fn law_form_fields(
    current: SettingsModel,
    api_key: Seq<char>,
    model: Seq<char>,
    prompt: Seq<char>,
)
    ensures
        ({
            let n = settings_after_form(current, api_key, model, prompt);
            &&& n.api_key == trimmed(api_key)
            &&& trimmed_else(model, DEFAULT_MODEL@, n.model)
            &&& trimmed_else(prompt, DEFAULT_PROMPT@, n.prompt)
            &&& trimmed_else(current.app_title, DEFAULT_APP_TITLE@, n.app_title)
            &&& trimmed_else_none(current.http_referer, n.http_referer)
        }),
{
}

} // verus!
