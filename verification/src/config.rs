use vstd::prelude::*;

use crate::openrouter::OpenRouterConfig;
use crate::settings::{opt_view, DEFAULT_APP_TITLE, DEFAULT_MODEL, DEFAULT_PROMPT};

verus! {

/// The configuration the command-line program starts with.
#[derive(Clone, Debug)]
pub struct AppConfig {
    pub openrouter: OpenRouterConfig,
}

/// Why the program cannot start.
#[derive(Clone, Copy, Debug, PartialEq, Eq, Structural)]
pub enum ConfigError {
    /// `OPENROUTER_API_KEY` is not set.
    MissingApiKey,
}

/// The value where one is given, else the default, as it is.
pub open spec fn value_or(value: Option<Seq<char>>, default: Seq<char>) -> Seq<char> {
    match value {
        Some(v) => v,
        None => default,
    }
}

fn string_or(value: Option<String>, default: &str) -> (r: String)
    ensures
        r@ == value_or(opt_view(value), default@),
{
    match value {
        Some(v) => v,
        None => default.to_owned(),
    }
}

impl AppConfig {
    /// The configuration from the values of `OPENROUTER_API_KEY`,
    /// `TVOICE_OPENROUTER_MODEL`, `TVOICE_OPENROUTER_PROMPT`, `TVOICE_APP_TITLE`
    /// and `TVOICE_HTTP_REFERER` (`None` where one is unset). The key is required;
    /// the other values are taken as they are, with the defaults where unset.
    pub fn from_values(
        api_key: Option<String>,
        model: Option<String>,
        prompt: Option<String>,
        app_title: Option<String>,
        http_referer: Option<String>,
    ) -> (r: Result<AppConfig, ConfigError>)
        ensures
            api_key is None <==> r == Err::<AppConfig, ConfigError>(ConfigError::MissingApiKey),
            r matches Ok(c) ==> {
                &&& Some(c.openrouter.api_key@) == opt_view(api_key)
                &&& c.openrouter.model@ == value_or(opt_view(model), DEFAULT_MODEL@)
                &&& c.openrouter.prompt@ == value_or(opt_view(prompt), DEFAULT_PROMPT@)
                &&& c.openrouter.app_title@ == value_or(opt_view(app_title), DEFAULT_APP_TITLE@)
                &&& opt_view(c.openrouter.http_referer) == opt_view(http_referer)
            },
    {
        let api_key = match api_key {
            Some(k) => k,
            None => return Err(ConfigError::MissingApiKey),
        };
        Ok(AppConfig {
            openrouter: OpenRouterConfig {
                api_key,
                model: string_or(model, DEFAULT_MODEL),
                prompt: string_or(prompt, DEFAULT_PROMPT),
                app_title: string_or(app_title, DEFAULT_APP_TITLE),
                http_referer,
            },
        })
    }
}

/// A value that is given is taken as it is, and the default stands only for a
/// value that is not given.
pub proof fn law_value_or(value: Option<Seq<char>>, default: Seq<char>)
    ensures
        value matches Some(v) ==> value_or(value, default) == v,
        value is None ==> value_or(value, default) == default,
{
}

} // verus!
