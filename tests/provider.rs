use ggw::provider::Provider;

#[test]
fn from_ignores_letter_case() {
    assert_eq!(Provider::from("GEMINI"), Provider::Gemini);
    assert_eq!(Provider::from("gemini"), Provider::Gemini);
    assert_eq!(Provider::from("Gemini"), Provider::Gemini);
    assert_eq!(Provider::from("oPeNaI"), Provider::OpenAI);
    assert_eq!(Provider::from("DeepSeek"), Provider::Deepseek);
    assert_eq!(Provider::from("ANTHROPIC"), Provider::Anthropic);
    assert_eq!(Provider::from("Ollama"), Provider::Ollama);
}

#[test]
fn unknown_name_reads_as_default() {
    assert_eq!(Provider::from("mistral"), Provider::Ollama);
    assert_eq!(Provider::from(""), Provider::Ollama);
    assert_eq!(Provider::from("gemini "), Provider::Ollama);
    assert_eq!(Provider::from("gemini-pro"), Provider::Ollama);
    // the same text gives the same answer every time
    assert_eq!(Provider::from("mistral"), Provider::from("mistral"));
}

#[test]
fn strict_parse_refuses_unknown_names() {
    assert_eq!(Provider::parse("OpenAI"), Some(Provider::OpenAI));
    assert_eq!(Provider::parse("openai"), Some(Provider::OpenAI));
    assert_eq!(Provider::parse("open ai"), None);
    assert_eq!(Provider::parse(""), None);
}

#[test]
fn names_are_read_in_unicode_lower_case() {
    // the Kelvin sign lower-cases to `k`
    assert_eq!(Provider::from("deepsee\u{212A}"), Provider::Deepseek);
    assert_eq!(Provider::parse("DEEPSEE\u{212A}"), Some(Provider::Deepseek));
    assert_eq!(
        Provider::from("deepsee\u{212A}").credential_var(),
        Some("GGW_DEEPSEEK_API")
    );
    assert_eq!(Provider::from("GeMiNi").credential_var(), Some("GGW_GEMINI_API"));
    assert_eq!(Provider::from_lowered("gemini"), Some(Provider::Gemini));
    assert_eq!(Provider::from_lowered("Gemini"), None);
    assert_eq!(Provider::from_lowered(""), None);
}

#[test]
fn names_and_credential_variables() {
    assert_eq!(Provider::Ollama.name(), "ollama");
    assert_eq!(Provider::Anthropic.name(), "anthropic");
    assert_eq!(Provider::Deepseek.name(), "deepseek");
    assert_eq!(Provider::Gemini.name(), "gemini");
    assert_eq!(Provider::OpenAI.name(), "openai");
    assert_eq!(Provider::Ollama.credential_var(), None);
    assert_eq!(Provider::Anthropic.credential_var(), Some("GGW_ANTHROPIC_API"));
    assert_eq!(Provider::Deepseek.credential_var(), Some("GGW_DEEPSEEK_API"));
    assert_eq!(Provider::Gemini.credential_var(), Some("GGW_GEMINI_API"));
    assert_eq!(Provider::OpenAI.credential_var(), Some("GGW_OPENAI_API"));
}
