use vstd::prelude::*;

use crate::catalog::str_equal;

verus! {

/// The service that answers chat and analytics requests.
#[derive(Clone, Copy, Debug, PartialEq, Eq, Structural)]
pub enum AIProvider {
    /// A local, OpenAI-compatible server for development.
    LMStudio,
    OpenAI,
    /// A custom retrieval-augmented endpoint.
    CustomRAG,
}

/// The lower-case form of a string, as `str::to_lowercase` gives it.
pub uninterp spec fn lowercase_of(s: Seq<char>) -> Seq<char>;

/// Relies on `str::to_lowercase`: the result depends on the characters alone.
#[verifier::external_body]
fn lowercase(s: &str) -> (r: String)
    ensures
        r@ == lowercase_of(s@),
{
    s.to_lowercase()
}

/// The provider that a lower-case name selects; unknown names select the
/// development server.
pub open spec fn provider_named(s: Seq<char>) -> AIProvider {
    if s == "openai"@ {
        AIProvider::OpenAI
    } else if s == "lmstudio"@ || s == "lm_studio"@ || s == "lm-studio"@ {
        AIProvider::LMStudio
    } else if s == "custom"@ || s == "custom_rag"@ || s == "customrag"@ || s == "rag"@ {
        AIProvider::CustomRAG
    } else {
        AIProvider::LMStudio
    }
}

impl AIProvider {
    /// The provider named by `s`, read without regard to case.
    pub fn from_str(s: &str) -> (r: AIProvider)
        ensures
            r == provider_named(lowercase_of(s@)),
    {
        let lower = lowercase(s);
        AIProvider::from_lowercase(lower.as_str())
    }

    /// The provider that an already lower-case name selects.
    pub fn from_lowercase(s: &str) -> (r: AIProvider)
        ensures
            r == provider_named(s@),
    {
        if str_equal(s, "openai") {
            AIProvider::OpenAI
        } else if str_equal(s, "lmstudio") || str_equal(s, "lm_studio") || str_equal(
            s,
            "lm-studio",
        ) {
            AIProvider::LMStudio
        } else if str_equal(s, "custom") || str_equal(s, "custom_rag")
            || str_equal(s, "customrag") || str_equal(s, "rag") {
            AIProvider::CustomRAG
        } else {
            AIProvider::LMStudio
        }
    }
}

/// Settings of the server, read from the environment at start-up.
#[derive(Clone, Debug)]
pub struct Config {
    pub server_host: String,
    pub server_port: u16,
    pub mongodb_uri: String,
    pub mongodb_database: String,
    pub redis_uri: String,
    pub jwt_secret: String,
    pub jwt_expiration: i64,
    pub jwt_refresh_expiration: i64,
    pub ai_provider: AIProvider,
    pub ai_api_url: String,
    pub ai_model_name: String,
    pub ai_api_key: Option<String>,
    pub rate_limit_requests: usize,
    pub rate_limit_window_secs: u64,
    pub chat_rate_limit_messages: usize,
    pub chat_rate_limit_window_secs: u64,
    pub chat_context_message_limit: usize,
    pub cors_allowed_origins: Vec<String>,
}

} // verus!
