use chatstream::settings::{
    default_shortcut, ProviderParams, Settings, SettingsInput,
    settings_from_input,
};

#[test]
fn defaults_match_the_documented_values() {
    let s = Settings::default();
    assert_eq!(s.provider, "ollama");
    assert!(s.conversation_history);
    assert_eq!(s.keyboard_shortcut, "Ctrl+Space");
    assert_eq!(s.provider_params.ollama.url, "http://localhost:11434");
    assert_eq!(s.provider_params.ollama.model, "gemma2:2b");
    assert_eq!(s.provider_params.openai.api_key, "__NOT_STORED_HERE__");
    assert!(!s.provider_params.openai.web_search_enabled);
    assert_eq!(s.provider_params.google.api_key, "__NOT_STORED_HERE__");
    assert_eq!(s.provider_params.lmstudio.url, "http://localhost:1234");
    assert_eq!(s.provider_params.lmstudio.model, "local-model");
    assert_eq!(s.provider_params.custom.url, "");
}

#[test]
fn default_shortcut_is_ctrl_space() {
    assert_eq!(default_shortcut(), "Ctrl+Space");
}

#[test]
fn absent_fields_fall_back_to_defaults() {
    let s = settings_from_input(SettingsInput {
        provider: None,
        provider_params: None,
        conversation_history: None,
        keyboard_shortcut: None,
    });
    assert_eq!(s.provider, "ollama");
    assert!(s.conversation_history);
    assert_eq!(s.keyboard_shortcut, "Ctrl+Space");
    assert_eq!(s.provider_params.ollama.model, "gemma2:2b");
}

#[test]
fn present_fields_are_kept() {
    let mut params = ProviderParams::default();
    params.ollama.model = "llama3".to_string();
    let s = settings_from_input(SettingsInput {
        provider: Some("openai".to_string()),
        provider_params: Some(params),
        conversation_history: Some(false),
        keyboard_shortcut: Some("Cmd+K".to_string()),
    });
    assert_eq!(s.provider, "openai");
    assert!(!s.conversation_history);
    assert_eq!(s.keyboard_shortcut, "Cmd+K");
    assert_eq!(s.provider_params.ollama.model, "llama3");
}
