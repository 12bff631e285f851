//! Application settings and per-provider parameters, with their defaults.

use vstd::prelude::*;

verus! {

use vstd::string::StringExecFns;

/// Parameters of the Ollama backend.
#[derive(Debug, Clone)]
pub struct OllamaParams {
    pub url: String,
    pub model: String,
}

impl Default for OllamaParams {
    fn default() -> (r: OllamaParams)
        ensures
            r.url@ == "http://localhost:11434"@,
            r.model@ == "gemma2:2b"@,
    {
        OllamaParams {
            url: String::from_str("http://localhost:11434"),
            model: String::from_str("gemma2:2b"),
        }
    }
}

/// Parameters of the OpenAI backend. The key at rest is replaced by the
/// not-stored marker; the real key lives in the encrypted secrets store.
#[derive(Debug, Clone)]
pub struct OpenAIParams {
    pub api_key: String,
    pub web_search_enabled: bool,
}

impl Default for OpenAIParams {
    fn default() -> (r: OpenAIParams)
        ensures
            r.api_key@ == "__NOT_STORED_HERE__"@,
            r.web_search_enabled == false,
    {
        OpenAIParams {
            api_key: String::from_str("__NOT_STORED_HERE__"),
            web_search_enabled: false,
        }
    }
}

/// Parameters of the Google backend.
#[derive(Debug, Clone)]
pub struct GoogleParams {
    pub api_key: String,
}

impl Default for GoogleParams {
    fn default() -> (r: GoogleParams)
        ensures
            r.api_key@ == "__NOT_STORED_HERE__"@,
    {
        GoogleParams { api_key: String::from_str("__NOT_STORED_HERE__") }
    }
}

/// Parameters of the LM Studio backend.
#[derive(Debug, Clone)]
pub struct LMStudioParams {
    pub url: String,
    pub model: String,
}

impl Default for LMStudioParams {
    fn default() -> (r: LMStudioParams)
        ensures
            r.url@ == "http://localhost:1234"@,
            r.model@ == "local-model"@,
    {
        LMStudioParams {
            url: String::from_str("http://localhost:1234"),
            model: String::from_str("local-model"),
        }
    }
}

/// Parameters of a custom OpenAI-compatible backend.
#[derive(Debug, Clone)]
pub struct CustomParams {
    pub url: String,
}

impl Default for CustomParams {
    fn default() -> (r: CustomParams)
        ensures
            r.url@ == Seq::<char>::empty(),
    {
        CustomParams { url: String::new() }
    }
}

/// `pp` holds every provider's default parameters.
pub open spec fn is_default_provider_params(pp: ProviderParams) -> bool {
    &&& pp.ollama.url@ == "http://localhost:11434"@
    &&& pp.ollama.model@ == "gemma2:2b"@
    &&& pp.openai.api_key@ == "__NOT_STORED_HERE__"@
    &&& pp.openai.web_search_enabled == false
    &&& pp.google.api_key@ == "__NOT_STORED_HERE__"@
    &&& pp.lmstudio.url@ == "http://localhost:1234"@
    &&& pp.lmstudio.model@ == "local-model"@
    &&& pp.custom.url@ == Seq::<char>::empty()
}

/// The parameters of every provider, side by side.
#[derive(Debug, Clone)]
pub struct ProviderParams {
    pub ollama: OllamaParams,
    pub openai: OpenAIParams,
    pub google: GoogleParams,
    pub lmstudio: LMStudioParams,
    pub custom: CustomParams,
}

impl Default for ProviderParams {
    fn default() -> (r: ProviderParams)
        ensures
            r.ollama.url@ == "http://localhost:11434"@,
            r.ollama.model@ == "gemma2:2b"@,
            r.openai.api_key@ == "__NOT_STORED_HERE__"@,
            r.openai.web_search_enabled == false,
            r.google.api_key@ == "__NOT_STORED_HERE__"@,
            r.lmstudio.url@ == "http://localhost:1234"@,
            r.lmstudio.model@ == "local-model"@,
            r.custom.url@ == Seq::<char>::empty(),
    {
        ProviderParams {
            ollama: OllamaParams::default(),
            openai: OpenAIParams::default(),
            google: GoogleParams::default(),
            lmstudio: LMStudioParams::default(),
            custom: CustomParams::default(),
        }
    }
}

/// The keyboard shortcut used when none is configured.
pub fn default_shortcut() -> (r: String)
    ensures
        r@ == "Ctrl+Space"@,
{
    String::from_str("Ctrl+Space")
}

/// The application settings document.
#[derive(Debug, Clone)]
pub struct Settings {
    pub provider: String,
    pub provider_params: ProviderParams,
    pub conversation_history: bool,
    pub keyboard_shortcut: String,
}

impl Default for Settings {
    fn default() -> (r: Settings)
        ensures
            r.provider@ == "ollama"@,
            r.conversation_history == true,
            r.keyboard_shortcut@ == "Ctrl+Space"@,
            r.provider_params.ollama.url@ == "http://localhost:11434"@,
            r.provider_params.ollama.model@ == "gemma2:2b"@,
            r.provider_params.openai.api_key@ == "__NOT_STORED_HERE__"@,
            r.provider_params.openai.web_search_enabled == false,
            r.provider_params.google.api_key@ == "__NOT_STORED_HERE__"@,
            r.provider_params.lmstudio.url@ == "http://localhost:1234"@,
            r.provider_params.lmstudio.model@ == "local-model"@,
            r.provider_params.custom.url@ == Seq::<char>::empty(),
    {
        Settings {
            provider: String::from_str("ollama"),
            provider_params: ProviderParams::default(),
            conversation_history: true,
            keyboard_shortcut: default_shortcut(),
        }
    }
}

/// The settings fields as read back from the stored map; a field is absent
/// when the map lacks it or holds it with another type.
pub struct SettingsInput {
    pub provider: Option<String>,
    pub provider_params: Option<ProviderParams>,
    pub conversation_history: Option<bool>,
    pub keyboard_shortcut: Option<String>,
}

/// Assemble the settings document to persist: each absent field falls back
/// to its default.
pub fn settings_from_input(input: SettingsInput) -> (r: Settings)
    ensures
        (input.provider matches Some(p) ==> r.provider == p),
        (input.provider is None ==> r.provider@ == "ollama"@),
        (input.provider_params matches Some(pp) ==> r.provider_params == pp),
        (input.provider_params is None ==> is_default_provider_params(r.provider_params)),
        (input.conversation_history matches Some(h) ==> r.conversation_history == h),
        (input.conversation_history is None ==> r.conversation_history == true),
        (input.keyboard_shortcut matches Some(k) ==> r.keyboard_shortcut == k),
        (input.keyboard_shortcut is None ==> r.keyboard_shortcut@ == "Ctrl+Space"@),
{
    let provider = match input.provider {
        Option::Some(p) => p,
        Option::None => String::from_str("ollama"),
    };
    let provider_params = match input.provider_params {
        Option::Some(pp) => pp,
        Option::None => ProviderParams::default(),
    };
    let conversation_history = match input.conversation_history {
        Option::Some(h) => h,
        Option::None => true,
    };
    let keyboard_shortcut = match input.keyboard_shortcut {
        Option::Some(k) => k,
        Option::None => default_shortcut(),
    };
    Settings { provider, provider_params, conversation_history, keyboard_shortcut }
}

} // verus!
