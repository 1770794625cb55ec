//! The language-model backends the tool can talk to, and the default API
//! endpoint of each. Only the identifier and its default base URL live here;
//! the network client itself is outside this library.

use vstd::prelude::*;

verus! {

/// Identifies which language-model backend the agent talks to.
#[derive(Clone, Copy, PartialEq, Eq, Structural, Debug)]
pub enum Backend {
    OpenRouter,
    Ollama,
}

/// The default API base URL of a backend, as a mathematical value.
pub open spec fn backend_base_url(b: Backend) -> Seq<char> {
    match b {
        Backend::OpenRouter => "https://openrouter.ai/api/v1"@,
        Backend::Ollama => "http://localhost:11434/v1"@,
    }
}

impl Backend {
    /// The default API base URL of this backend.
    pub fn default_base_url(&self) -> (r: String)
        ensures
            r@ == backend_base_url(*self),
    {
        match self {
            Backend::OpenRouter => "https://openrouter.ai/api/v1".to_owned(),
            Backend::Ollama => "http://localhost:11434/v1".to_owned(),
        }
    }
}

impl Default for Backend {
    /// The backend used when none is configured.
    fn default() -> (r: Self)
        ensures
            r == Backend::OpenRouter,
    {
        Backend::OpenRouter
    }
}

} // verus!
