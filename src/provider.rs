use vstd::prelude::*;

use crate::text::same_text;

verus! {

/// The closed set of language-model backends.
#[derive(Clone, Copy, Debug, PartialEq, Eq, Hash, Structural)]
pub enum Provider {
    Ollama,
    Anthropic,
    Deepseek,
    Gemini,
    OpenAI,
}

/// What `str::to_lowercase` makes of a string: its Unicode lower-case form.
pub uninterp spec fn lower_of(s: Seq<char>) -> Seq<char>;

/// Relies on `str::to_lowercase`: the Unicode lower-case form of `s`, which
/// depends on the characters of `s` alone.
#[verifier::external_body]
fn lowercase(s: &str) -> (r: String)
    ensures
        r@ == lower_of(s@),
{
    s.to_lowercase()
}

/// The provider whose lower-case name is exactly `lower`.
pub open spec fn provider_of_lowered(lower: Seq<char>) -> Option<Provider> {
    if lower == Provider::Ollama.spec_name() {
        Some(Provider::Ollama)
    } else if lower == Provider::Anthropic.spec_name() {
        Some(Provider::Anthropic)
    } else if lower == Provider::Deepseek.spec_name() {
        Some(Provider::Deepseek)
    } else if lower == Provider::Gemini.spec_name() {
        Some(Provider::Gemini)
    } else if lower == Provider::OpenAI.spec_name() {
        Some(Provider::OpenAI)
    } else {
        None
    }
}

/// The provider whose name `s` spells once lower-cased.
pub open spec fn provider_named(s: Seq<char>) -> Option<Provider> {
    provider_of_lowered(lower_of(s))
}

/// The provider that an unrecognised name stands for. The local backend is
/// chosen: it needs no credential and sends nothing off the machine.
pub open spec fn default_provider() -> Provider {
    Provider::Ollama
}

/// What `Provider::from` makes of `s`.
pub open spec fn provider_from(s: Seq<char>) -> Provider {
    match provider_named(s) {
        Some(p) => p,
        None => default_provider(),
    }
}

impl Provider {
    /// The lower-case name of the provider.
    pub open spec fn spec_name(self) -> Seq<char> {
        match self {
            Provider::Ollama => "ollama"@,
            Provider::Anthropic => "anthropic"@,
            Provider::Deepseek => "deepseek"@,
            Provider::Gemini => "gemini"@,
            Provider::OpenAI => "openai"@,
        }
    }

    /// The environment variable that may hold this provider's credential.
    /// The local backend has none.
    pub open spec fn spec_credential_var(self) -> Option<Seq<char>> {
        match self {
            Provider::Ollama => None,
            Provider::Anthropic => Some("GGW_ANTHROPIC_API"@),
            Provider::Deepseek => Some("GGW_DEEPSEEK_API"@),
            Provider::Gemini => Some("GGW_GEMINI_API"@),
            Provider::OpenAI => Some("GGW_OPENAI_API"@),
        }
    }

    pub fn name(&self) -> (r: &'static str)
        ensures
            r@ == self.spec_name(),
    {
        match self {
            Provider::Ollama => "ollama",
            Provider::Anthropic => "anthropic",
            Provider::Deepseek => "deepseek",
            Provider::Gemini => "gemini",
            Provider::OpenAI => "openai",
        }
    }

    pub fn credential_var(&self) -> (r: Option<&'static str>)
        ensures
            match r {
                Some(v) => self.spec_credential_var() == Some(v@),
                None => self.spec_credential_var().is_none(),
            },
    {
        match self {
            Provider::Ollama => None,
            Provider::Anthropic => Some("GGW_ANTHROPIC_API"),
            Provider::Deepseek => Some("GGW_DEEPSEEK_API"),
            Provider::Gemini => Some("GGW_GEMINI_API"),
            Provider::OpenAI => Some("GGW_OPENAI_API"),
        }
    }

    /// The provider whose lower-case name is exactly `lower`, or `None`.
    pub fn from_lowered(lower: &str) -> (r: Option<Provider>)
        ensures
            r == provider_of_lowered(lower@),
    {
        if same_text(lower, "ollama") {
            Some(Provider::Ollama)
        } else if same_text(lower, "anthropic") {
            Some(Provider::Anthropic)
        } else if same_text(lower, "deepseek") {
            Some(Provider::Deepseek)
        } else if same_text(lower, "gemini") {
            Some(Provider::Gemini)
        } else if same_text(lower, "openai") {
            Some(Provider::OpenAI)
        } else {
            None
        }
    }

    /// Strict parse: the provider that `s` names once lower-cased, or `None`
    /// when it names none.
    pub fn parse(s: &str) -> (r: Option<Provider>)
        ensures
            r == provider_named(s@),
    {
        let lower = lowercase(s);
        Provider::from_lowered(lower.as_str())
    }
}

impl<'a> From<&'a str> for Provider {
    /// Lenient parse: an unrecognised name gives the default provider.
    fn from(s: &'a str) -> (r: Provider) {
        match Provider::parse(s) {
            Some(p) => p,
            None => Provider::Ollama,
        }
    }
}

impl<'a> vstd::std_specs::convert::FromSpecImpl<&'a str> for Provider {
    open spec fn obeys_from_spec() -> bool {
        true
    }

    open spec fn from_spec(s: &'a str) -> Provider {
        provider_from(s@)
    }
}

/// Names that lower-case alike give the same provider, under the strict and
/// under the lenient reading.
pub proof fn from_ignores_case(a: Seq<char>, b: Seq<char>)
    requires
        lower_of(a) == lower_of(b),
    ensures
        provider_named(a) == provider_named(b),
        provider_from(a) == provider_from(b),
{
}

/// A name whose lower-case form is a provider's name is read as that
/// provider.
pub proof fn name_in_any_case(p: Provider, s: Seq<char>)
    requires
        lower_of(s) == p.spec_name(),
    ensures
        provider_named(s) == Some(p),
        provider_from(s) == p,
{
    reveal_strlit("ollama");
    reveal_strlit("anthropic");
    reveal_strlit("deepseek");
    reveal_strlit("gemini");
    reveal_strlit("openai");
    assert forall|q: Provider| q != p implies #[trigger] q.spec_name() != p.spec_name() by {
        let np = p.spec_name();
        let nq = q.spec_name();
        if np.len() == nq.len() {
            assert(np[0] != nq[0] || np[1] != nq[1]);
        }
    }
}

/// An unrecognised name is read, without error, as the default provider.
pub proof fn unknown_name_gives_default(s: Seq<char>)
    requires
        provider_named(s).is_none(),
    ensures
        provider_from(s) == default_provider(),
        provider_from(s) == Provider::Ollama,
{
}

} // verus!
