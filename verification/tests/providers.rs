use chatstream::errors::StreamError;
use chatstream::models::Message;
use chatstream::providers::{
    first_choice_content, parse_provider, plan_call, plan_lmstudio_call, plan_ollama_call,
    ollama_tags_endpoint, plan_openai_call, plan_stream, CallPlan, ProviderKind, StreamPlan,
};
use chatstream::settings::ProviderParams;

fn msgs() -> Vec<Message> {
    vec![Message {
        role: "user".to_string(),
        content: "hi".to_string(),
        timestamp: "2024-01-01T00:00:00Z".to_string(),
        complete: true,
    }]
}

#[test]
fn ollama_endpoint_strips_trailing_slashes() {
    let p = plan_ollama_call("http://localhost:11434///", "gemma2:2b", &msgs(), false);
    assert_eq!(p.endpoint, "http://localhost:11434/api/chat");
    assert_eq!(p.model, "gemma2:2b");
    assert!(!p.stream);
    assert_eq!(p.messages.len(), 1);
    assert_eq!(p.messages[0].role, "user");
    assert_eq!(p.messages[0].content, "hi");
    // timestamps are not sent to the backend
    assert_eq!(p.messages[0].timestamp, "");
    assert!(p.messages[0].complete);
}

#[test]
fn openai_requires_api_key() {
    match plan_openai_call("", false, &msgs(), false) {
        Err(StreamError::Connection(m)) => assert_eq!(m, "OpenAI API key is required"),
        other => panic!("unexpected: {:?}", other),
    }
}

#[test]
fn openai_model_follows_web_search() {
    let with = plan_openai_call("sk-test", true, &msgs(), true).unwrap();
    assert_eq!(with.model, "gpt-4o");
    assert!(with.web_search_tool);
    assert!(with.stream);
    let without = plan_openai_call("sk-test", false, &msgs(), false).unwrap();
    assert_eq!(without.model, "gpt-4o-mini");
    assert!(!without.web_search_tool);
    assert_eq!(without.endpoint, "https://api.openai.com/v1/chat/completions");
}

#[test]
fn lmstudio_uses_openai_compatible_endpoint() {
    let p = plan_lmstudio_call("http://localhost:1234/", "local-model", &msgs());
    assert_eq!(p.endpoint, "http://localhost:1234/v1/chat/completions");
    assert_eq!(p.model, "local-model");
}

#[test]
fn provider_names_parse() {
    assert_eq!(parse_provider("ollama"), Some(ProviderKind::Ollama));
    assert_eq!(parse_provider("openai"), Some(ProviderKind::OpenAi));
    assert_eq!(parse_provider("google"), Some(ProviderKind::Google));
    assert_eq!(parse_provider("lmstudio"), Some(ProviderKind::LmStudio));
    assert_eq!(parse_provider("custom"), Some(ProviderKind::Custom));
    assert_eq!(parse_provider("OLLAMA"), None);
    assert_eq!(parse_provider("mistral"), None);
}

#[test]
fn unknown_provider_is_rejected() {
    let params = ProviderParams::default();
    match plan_call("nope", &params, &msgs()) {
        Err(StreamError::Connection(m)) => assert_eq!(m, "Unknown provider: nope"),
        other => panic!("unexpected: {:?}", other),
    }
}

#[test]
fn call_dispatch_uses_configured_params() {
    let params = ProviderParams::default();
    match plan_call("ollama", &params, &msgs()) {
        Ok(CallPlan::Ollama(p)) => {
            assert_eq!(p.endpoint, "http://localhost:11434/api/chat");
            assert_eq!(p.model, "gemma2:2b");
            assert!(!p.stream);
        }
        other => panic!("unexpected: {:?}", other.is_ok()),
    }
    match plan_call("lmstudio", &params, &msgs()) {
        Ok(CallPlan::LmStudio(p)) => {
            assert_eq!(p.endpoint, "http://localhost:1234/v1/chat/completions");
        }
        other => panic!("unexpected: {:?}", other.is_ok()),
    }
}

#[test]
fn streaming_only_for_ollama_and_openai() {
    let params = ProviderParams::default();
    match plan_stream("ollama", &params, &msgs()) {
        Ok(StreamPlan::Ollama(p)) => assert!(p.stream),
        other => panic!("unexpected: {:?}", other.is_ok()),
    }
    match plan_stream("lmstudio", &params, &msgs()) {
        Err(StreamError::Connection(m)) => {
            assert_eq!(m, "Streaming not yet implemented for provider: lmstudio");
        }
        other => panic!("unexpected: {:?}", other.is_ok()),
    }
}

#[test]
fn first_choice_picks_the_first_content() {
    let contents = vec!["answer".to_string(), "other".to_string()];
    assert_eq!(first_choice_content(&contents, "OpenAI").unwrap(), "answer");
    let empty: Vec<String> = Vec::new();
    match first_choice_content(&empty, "LM Studio") {
        Err(StreamError::Parse(m)) => assert_eq!(m, "No response from LM Studio"),
        other => panic!("unexpected: {:?}", other),
    }
}

#[test]
fn tags_endpoint_strips_trailing_slashes() {
    assert_eq!(ollama_tags_endpoint("http://localhost:11434/"), "http://localhost:11434/api/tags");
}
