use vstd::prelude::*;

verus! {

/// Environment variable that holds the OpenAI credential.
pub const OPENAI_KEY_VAR: &'static str = "OPENAI_API_KEY";

/// Environment variable that holds the Mistral credential.
pub const MISTRAL_KEY_VAR: &'static str = "MISTRAL_API_KEY";

/// Base URL of Mistral's OpenAI-compatible endpoint.
pub const MISTRAL_API_BASE: &'static str = "https://api.mistral.ai/v1";

/// The chat backend a prompt is sent to.
#[derive(Clone, Copy, Debug, PartialEq, Eq, Structural)]
pub enum ModelProvider {
    /// Enforces a syntactically valid JSON object when asked to.
    OpenAi,
    /// Reached through an alternate base URL; has no JSON mode, so the shape of
    /// an answer rests on the prompt alone.
    Mistral,
}

impl ModelProvider {
    /// Whether the backend accepts the JSON-object response flag.
    pub open spec fn spec_supports_json_mode(self) -> bool {
        self == ModelProvider::OpenAi
    }

    /// Name of the environment variable that holds the backend's credential.
    pub open spec fn spec_credential_var(self) -> Seq<char> {
        match self {
            ModelProvider::OpenAi => OPENAI_KEY_VAR@,
            ModelProvider::Mistral => MISTRAL_KEY_VAR@,
        }
    }

    /// The base URL that replaces the client's default, if any.
    pub open spec fn spec_api_base(self) -> Option<Seq<char>> {
        match self {
            ModelProvider::OpenAi => None,
            ModelProvider::Mistral => Some(MISTRAL_API_BASE@),
        }
    }

    pub fn supports_json_mode(&self) -> (r: bool)
        ensures
            r == self.spec_supports_json_mode(),
    {
        match self {
            ModelProvider::OpenAi => true,
            ModelProvider::Mistral => false,
        }
    }

    pub fn credential_var(&self) -> (r: &'static str)
        ensures
            r@ == self.spec_credential_var(),
    {
        match self {
            ModelProvider::OpenAi => OPENAI_KEY_VAR,
            ModelProvider::Mistral => MISTRAL_KEY_VAR,
        }
    }

    pub fn api_base(&self) -> (r: Option<String>)
        ensures
            r is None <==> self.spec_api_base() is None,
            r is Some ==> r->Some_0@ == self.spec_api_base()->Some_0,
    {
        match self {
            ModelProvider::OpenAi => None,
            ModelProvider::Mistral => Some(String::from_str(MISTRAL_API_BASE)),
        }
    }
}

/// What to ask: instructions (with the schema the answer must follow, where one
/// is wanted), the task itself, the model and the backend.
#[derive(Clone, Debug)]
pub struct Prompt {
    pub system_prompt: String,
    pub user_prompt: String,
    pub model: String,
    pub provider: ModelProvider,
}

/// A resolved backend: the credential and the base URL that overrides the
/// client's default (`None` keeps the default).
#[derive(Clone, Debug)]
pub struct ClientConfig {
    pub api_key: String,
    pub api_base: Option<String>,
}

} // verus!
