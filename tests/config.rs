use ggw::config::{ModelConfig, ModelIdentity};
use ggw::error::LlmError;
use ggw::provider::Provider;

#[test]
fn token_splits_at_first_slash() {
    let id = ModelIdentity::parse("gemini/gemini-2.0-flash").unwrap();
    assert_eq!(id.provider(), Provider::Gemini);
    assert_eq!(id.model_name(), "gemini-2.0-flash");

    let id = ModelIdentity::parse("Ollama/library/llama3:8b").unwrap();
    assert_eq!(id.provider(), Provider::Ollama);
    assert_eq!(id.model_name(), "library/llama3:8b");
}

#[test]
fn token_without_slash_is_refused() {
    match ModelIdentity::parse("gemini") {
        Err(LlmError::InvalidModelFormat(t)) => assert_eq!(t, "gemini"),
        other => panic!("unexpected {:?}", other),
    }
}

#[test]
fn token_with_unknown_provider_is_refused() {
    match ModelIdentity::parse("mistral/large") {
        Err(LlmError::UnknownProvider(t)) => assert_eq!(t, "mistral"),
        other => panic!("unexpected {:?}", other),
    }
    match ModelIdentity::parse("/gpt-4") {
        Err(LlmError::UnknownProvider(t)) => assert_eq!(t, ""),
        other => panic!("unexpected {:?}", other),
    }
}

#[test]
fn token_with_empty_model_is_refused() {
    match ModelIdentity::parse("openai/") {
        Err(LlmError::InvalidModelFormat(t)) => assert_eq!(t, "openai/"),
        other => panic!("unexpected {:?}", other),
    }
}

#[test]
fn identity_from_parts() {
    let id = ModelIdentity::from_parts("ANTHROPIC", "large-2").unwrap();
    assert_eq!(id.provider(), Provider::Anthropic);
    assert_eq!(id.model_name(), "large-2");
    assert!(matches!(
        ModelIdentity::from_parts("nobody", "m"),
        Err(LlmError::UnknownProvider(_))
    ));
    assert!(matches!(
        ModelIdentity::from_parts("gemini", ""),
        Err(LlmError::InvalidModelFormat(_))
    ));
    assert!(matches!(
        ModelIdentity::new(Provider::Gemini, String::new()),
        Err(LlmError::InvalidModelFormat(_))
    ));
}

#[test]
fn model_names_keep_their_case() {
    let a = ModelIdentity::new(Provider::OpenAI, "GPT-4".to_string()).unwrap();
    let b = ModelIdentity::new(Provider::OpenAI, "gpt-4".to_string()).unwrap();
    let c = ModelIdentity::parse("OPENAI/gpt-4").unwrap();
    assert_ne!(a, b);
    assert_eq!(b, c);
    assert_eq!(b.clone(), b);
}

#[test]
fn config_equality_and_copy() {
    let a = ModelConfig::new(Some("k".to_string()), Some(0.5f32.to_bits()), Some(100), None);
    let b = a.clone();
    assert_eq!(a, b);
    assert_eq!(b.credential.as_deref(), Some("k"));
    assert_eq!(f32::from_bits(b.temperature_bits.unwrap()), 0.5);
    assert_eq!(b.max_output_tokens, Some(100));
    assert_eq!(b.base_url, None);
    let c = ModelConfig::new(Some("k".to_string()), Some(0.5f32.to_bits()), Some(101), None);
    assert_ne!(a, c);
    let d = ModelConfig::default();
    assert_eq!(d, ModelConfig::new(None, None, None, None));
}
