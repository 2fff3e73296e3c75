//! Configuration values consumed by the client core.
//!
//! The application reads the configuration file once at startup; the core
//! only ever sees the already-resolved values held in [`AppConfig`].

use vstd::prelude::*;
use vstd::string::*;

use crate::text::{clone_string_vec, strs_view};

verus! {

/// Configuration as resolved at startup: an optional API key, the base
/// endpoint URL, and an optional list of selectable model identifiers.
pub struct AppConfig {
    pub openai_api_key: Option<String>,
    pub api_url: String,
    pub models: Option<Vec<String>>,
}

/// The path suffix appended to the base URL to reach the completions
/// endpoint.
pub open spec fn completions_suffix() -> Seq<char> {
    "/v1/chat/completions"@
}

/// Builds the completions endpoint URL from the configured base URL.
pub fn get_completions_url(base_url: &str) -> (r: String)
    ensures
        r@ == base_url@ + completions_suffix(),
{
    base_url.to_owned().concat("/v1/chat/completions")
}

impl AppConfig {
    /// The configuration used when no file exists or the file cannot be
    /// read or parsed: no key, the public endpoint, no model list.
    pub fn fallback() -> (c: AppConfig)
        ensures
            c.openai_api_key is None,
            c.api_url@ == "https://api.openai.com"@,
            c.models is None,
    {
        AppConfig {
            openai_api_key: None,
            api_url: String::from_str("https://api.openai.com"),
            models: None,
        }
    }
}

/// The models a session offers: the configured list when one is named,
/// the built-in list otherwise.
pub fn resolve_models(config: &AppConfig) -> (r: Vec<String>)
    ensures
        config.models matches Some(m) ==> strs_view(r@) == strs_view(m@),
        config.models is None ==> strs_view(r@) == spec_default_models(),
{
    match &config.models {
        Some(m) => clone_string_vec(m),
        None => {
            let r = default_models();
            proof {
                assert(strs_view(r@) =~= spec_default_models());
            }
            r
        },
    }
}

/// The model identifiers offered when the configuration names none.
pub open spec fn spec_default_models() -> Seq<Seq<char>> {
    seq!["gemini-2.0-flash"@, "gpt-4.1"@, "gpt-4o-mini"@, "gpt-4o"@]
}

/// Returns the built-in model list, used when the configuration file
/// does not provide one.
pub fn default_models() -> (r: Vec<String>)
    ensures
        r@.len() == spec_default_models().len(),
        forall|i: int| 0 <= i < r@.len() ==> r@[i]@ == #[trigger] spec_default_models()[i],
{
    let mut v: Vec<String> = Vec::new();
    v.push(String::from_str("gemini-2.0-flash"));
    v.push(String::from_str("gpt-4.1"));
    v.push(String::from_str("gpt-4o-mini"));
    v.push(String::from_str("gpt-4o"));
    proof {
        assert(v@.len() == spec_default_models().len());
        assert forall|i: int| 0 <= i < v@.len() implies v@[i]@ == #[trigger] spec_default_models()[i] by {
            if i == 0 {
            } else if i == 1 {
            } else if i == 2 {
            } else {
                assert(i == 3);
            }
        }
    }
    v
}

} // verus!
