use chatstream::config::{load_api_keys_from_encrypted, save_api_keys_to_encrypted, ConfigValue};
use chatstream::strmap::StringMap;

fn text(s: &str) -> ConfigValue {
    ConfigValue::Text(s.to_string())
}

fn obj(entries: Vec<(&str, ConfigValue)>) -> ConfigValue {
    ConfigValue::Object(entries.into_iter().map(|(k, v)| (k.to_string(), v)).collect())
}

fn text_of(v: &ConfigValue) -> &str {
    match v {
        ConfigValue::Text(s) => s.as_str(),
        other => panic!("expected text, got {:?}", other),
    }
}

fn entry<'a>(v: &'a ConfigValue, key: &str) -> &'a ConfigValue {
    match v {
        ConfigValue::Object(entries) => {
            &entries.iter().find(|(k, _)| k == key).expect("missing field").1
        }
        other => panic!("expected object, got {:?}", other),
    }
}

fn settings_tree(api_key: &str) -> ConfigValue {
    obj(vec![
        ("provider", text("openai")),
        (
            "provider-params",
            obj(vec![
                ("openai", obj(vec![("api_key", text(api_key))])),
                ("ollama", obj(vec![("url", text("http://localhost:11434"))])),
            ]),
        ),
    ])
}

#[test]
fn save_moves_real_keys_into_the_map() {
    let mut secrets: StringMap<String> = StringMap::new();
    let scrubbed = save_api_keys_to_encrypted(settings_tree("sk-real"), "", &mut secrets);
    assert_eq!(
        secrets.get("provider-params.openai.api_key"),
        Some(&"sk-real".to_string())
    );
    let stored = entry(entry(entry(&scrubbed, "provider-params"), "openai"), "api_key");
    assert_eq!(text_of(stored), "__NOT_STORED_HERE__");
    // fields that are no credentials stay as they are
    let url = entry(entry(entry(&scrubbed, "provider-params"), "ollama"), "url");
    assert_eq!(text_of(url), "http://localhost:11434");
}

#[test]
fn save_leaves_markers_and_empty_values_alone() {
    let mut secrets: StringMap<String> = StringMap::new();
    let tree = obj(vec![
        ("a_key", text("__NOT_STORED_HERE__")),
        ("b_key", text("")),
    ]);
    let out = save_api_keys_to_encrypted(tree, "", &mut secrets);
    assert_eq!(secrets.len(), 0);
    assert_eq!(text_of(entry(&out, "a_key")), "__NOT_STORED_HERE__");
    assert_eq!(text_of(entry(&out, "b_key")), "");
}

#[test]
fn load_replaces_markers_with_stored_secrets() {
    let mut secrets: StringMap<String> = StringMap::new();
    secrets.insert("provider-params.openai.api_key".to_string(), "sk-stored".to_string());
    let loaded = load_api_keys_from_encrypted(settings_tree("__NOT_STORED_HERE__"), "", &secrets);
    let got = entry(entry(entry(&loaded, "provider-params"), "openai"), "api_key");
    assert_eq!(text_of(got), "sk-stored");
}

#[test]
fn load_of_an_unknown_marker_yields_the_empty_string() {
    let secrets: StringMap<String> = StringMap::new();
    let loaded = load_api_keys_from_encrypted(settings_tree("__NOT_STORED_HERE__"), "", &secrets);
    let got = entry(entry(entry(&loaded, "provider-params"), "openai"), "api_key");
    assert_eq!(text_of(got), "");
}

#[test]
fn load_keeps_real_values_in_place() {
    let secrets: StringMap<String> = StringMap::new();
    let loaded = load_api_keys_from_encrypted(settings_tree("sk-already-here"), "", &secrets);
    let got = entry(entry(entry(&loaded, "provider-params"), "openai"), "api_key");
    assert_eq!(text_of(got), "sk-already-here");
}

#[test]
fn save_then_load_round_trips_a_key() {
    let mut secrets: StringMap<String> = StringMap::new();
    let scrubbed = save_api_keys_to_encrypted(settings_tree("sk-round"), "", &mut secrets);
    let loaded = load_api_keys_from_encrypted(scrubbed, "", &secrets);
    let got = entry(entry(entry(&loaded, "provider-params"), "openai"), "api_key");
    assert_eq!(text_of(got), "sk-round");
}

#[test]
fn key_suffix_must_match_exactly() {
    let mut secrets: StringMap<String> = StringMap::new();
    let tree = obj(vec![("monkey", text("value")), ("api_key", text("v2"))]);
    let out = save_api_keys_to_encrypted(tree, "p", &mut secrets);
    // `monkey` does not end in `_key`
    assert!(!secrets.contains("p.monkey"));
    assert_eq!(text_of(entry(&out, "monkey")), "value");
    assert_eq!(secrets.get("p.api_key"), Some(&"v2".to_string()));
}

#[test]
fn non_object_values_pass_through() {
    let secrets: StringMap<String> = StringMap::new();
    let loaded = load_api_keys_from_encrypted(ConfigValue::Bool(true), "", &secrets);
    assert!(matches!(loaded, ConfigValue::Bool(true)));
}
