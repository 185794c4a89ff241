use ggw::config::{Config, Model, ModelConfig};
use ggw::provider::Provider;
use ggw::registry::ProviderRegistry;

fn keyed(credential: &str) -> ModelConfig {
    ModelConfig::new(Some(credential.to_string()), None, None, None)
}

#[test]
fn lookup_finds_configured_pairs() {
    let config = Config {
        models: vec![
            Model::new("gemini", "gemini-2.0-flash", keyed("g")),
            Model::new("openai", "gpt-4", keyed("o")),
        ],
        default_model: None,
    };
    let reg = ProviderRegistry::load(&config);
    assert_eq!(reg.lookup(Provider::Gemini, "gemini-2.0-flash"), Some(&keyed("g")));
    assert_eq!(reg.lookup(Provider::OpenAI, "gpt-4"), Some(&keyed("o")));
    assert!(reg.default_identity().is_none());
}

#[test]
fn lookup_of_absent_pair_gives_none() {
    let config = Config {
        models: vec![Model::new("gemini", "gemini-2.0-flash", keyed("g"))],
        default_model: None,
    };
    let reg = ProviderRegistry::load(&config);
    assert_eq!(reg.lookup(Provider::OpenAI, "gemini-2.0-flash"), None);
    assert_eq!(reg.lookup(Provider::Gemini, "gemini-2.0"), None);
    assert_eq!(reg.lookup(Provider::Gemini, "GEMINI-2.0-FLASH"), None);
    assert_eq!(reg.lookup(Provider::Gemini, ""), None);

    let empty = ProviderRegistry::load(&Config { models: vec![], default_model: None });
    assert_eq!(empty.lookup(Provider::Ollama, "llama3"), None);
}

#[test]
fn later_entry_with_same_key_stands() {
    let config = Config {
        models: vec![
            Model::new("gemini", "flash", keyed("first")),
            Model::new("GEMINI", "flash", keyed("second")),
            Model::new("gemini", "pro", keyed("third")),
        ],
        default_model: None,
    };
    let reg = ProviderRegistry::load(&config);
    assert_eq!(reg.lookup(Provider::Gemini, "flash"), Some(&keyed("second")));
    assert_eq!(reg.lookup(Provider::Gemini, "pro"), Some(&keyed("third")));
}

#[test]
fn entries_without_model_name_are_passed_over() {
    let config = Config {
        models: vec![Model::new("openai", "", keyed("o"))],
        default_model: Some(Model::new("openai", "", keyed("d"))),
    };
    let reg = ProviderRegistry::load(&config);
    assert_eq!(reg.lookup(Provider::OpenAI, ""), None);
    assert!(reg.default_identity().is_none());
}

#[test]
fn unknown_provider_names_file_under_default() {
    let config = Config {
        models: vec![Model::new("local-thing", "llama3", keyed("x"))],
        default_model: None,
    };
    let reg = ProviderRegistry::load(&config);
    assert_eq!(reg.lookup(Provider::Ollama, "llama3"), Some(&keyed("x")));
}

#[test]
fn default_carries_its_own_parameters() {
    let params = ModelConfig::new(None, Some(0.2f32.to_bits()), Some(512), None);
    let config = Config {
        models: vec![],
        default_model: Some(Model::new("Anthropic", "large-2", params.clone())),
    };
    let reg = ProviderRegistry::load(&config);
    let (id, c) = reg.default_identity().unwrap();
    assert_eq!(id.provider(), Provider::Anthropic);
    assert_eq!(id.model_name(), "large-2");
    assert_eq!(c, &params);
    assert_eq!(reg.lookup(Provider::Anthropic, "large-2"), None);
}

#[test]
fn stored_parameters_come_back_unchanged() {
    let original = ModelConfig::new(
        Some("secret".to_string()),
        Some(1.25f32.to_bits()),
        Some(2048),
        Some("http://localhost:9999".to_string()),
    );
    let config = Config {
        models: vec![Model::new("deepseek", "deepseek-chat", original.clone())],
        default_model: None,
    };
    let reg = ProviderRegistry::load(&config);
    let back = reg.lookup(Provider::Deepseek, "deepseek-chat").unwrap();
    assert_eq!(back, &original);
    assert_eq!(back.credential.as_deref(), Some("secret"));
    assert_eq!(f32::from_bits(back.temperature_bits.unwrap()), 1.25);
    assert_eq!(back.max_output_tokens, Some(2048));
    assert_eq!(back.base_url.as_deref(), Some("http://localhost:9999"));
}
