use vstd::prelude::*;

use crate::config::{opt_view, ModelConfig, ModelConfigView, ModelIdentity};
use crate::error::LlmError;
use crate::provider::Provider;
use crate::registry::{ProviderRegistry, RegistryView};

verus! {

/// The credentials found in the process environment, one per provider that
/// has a variable for it (see `Provider::credential_var`). The caller reads
/// the variables and hands the values over.
#[derive(Debug)]
pub struct EnvCredentials {
    pub anthropic: Option<String>,
    pub deepseek: Option<String>,
    pub gemini: Option<String>,
    pub openai: Option<String>,
}

impl EnvCredentials {
    /// The value found for `p`; the local backend never has one.
    pub open spec fn value_of(&self, p: Provider) -> Option<Seq<char>> {
        match p {
            Provider::Ollama => None,
            Provider::Anthropic => opt_view(self.anthropic),
            Provider::Deepseek => opt_view(self.deepseek),
            Provider::Gemini => opt_view(self.gemini),
            Provider::OpenAI => opt_view(self.openai),
        }
    }

    /// No variable set.
    pub fn none() -> (r: EnvCredentials)
        ensures
            forall|p: Provider| #[trigger] r.value_of(p).is_none(),
    {
        EnvCredentials { anthropic: None, deepseek: None, gemini: None, openai: None }
    }

    /// Records the value of `p`'s variable; the local backend has none, so
    /// a value for it is dropped.
    pub fn set(&mut self, p: Provider, value: String)
        ensures
            forall|q: Provider|
                #[trigger] final(self).value_of(q) == if q == p && p != Provider::Ollama {
                    Some(value@)
                } else {
                    old(self).value_of(q)
                },
    {
        match p {
            Provider::Ollama => {},
            Provider::Anthropic => self.anthropic = Some(value),
            Provider::Deepseek => self.deepseek = Some(value),
            Provider::Gemini => self.gemini = Some(value),
            Provider::OpenAI => self.openai = Some(value),
        }
    }

    pub fn get(&self, p: Provider) -> (r: Option<&String>)
        ensures
            match r {
                Some(s) => self.value_of(p) == Some(s@),
                None => self.value_of(p).is_none(),
            },
    {
        match p {
            Provider::Ollama => None,
            Provider::Anthropic => self.anthropic.as_ref(),
            Provider::Deepseek => self.deepseek.as_ref(),
            Provider::Gemini => self.gemini.as_ref(),
            Provider::OpenAI => self.openai.as_ref(),
        }
    }
}

/// A credential source counts when it holds a non-empty value.
pub open spec fn present(s: Option<Seq<char>>) -> bool {
    s matches Some(v) && v.len() > 0
}

/// The credential that a request for `p` carries: the explicit one, else the
/// one stored with the model's parameters, else the environment's; the local
/// backend needs none and gets the empty one. `None` means that none is found.
pub open spec fn credential_for(
    p: Provider,
    explicit: Option<Seq<char>>,
    stored: Option<Seq<char>>,
    env: Option<Seq<char>>,
) -> Option<Seq<char>> {
    if present(explicit) {
        explicit
    } else if present(stored) {
        stored
    } else if present(env) {
        env
    } else if p == Provider::Ollama {
        Some(Seq::empty())
    } else {
        None
    }
}

fn nonempty(s: &String) -> (r: bool)
    ensures
        r == (s@.len() > 0),
{
    s.as_str().unicode_len() > 0
}

/// Finds the credential for `provider` by the precedence of `credential_for`.
/// Fails with `MissingCredential` exactly when none is found for a provider
/// that needs one.
pub fn resolve_credential(
    provider: Provider,
    explicit: &Option<String>,
    stored: &ModelConfig,
    env: &EnvCredentials,
) -> (r: Result<String, LlmError>)
    ensures
        match credential_for(
            provider,
            opt_view(*explicit),
            stored@.credential,
            env.value_of(provider),
        ) {
            Some(c) => r matches Ok(s) && s@ == c,
            None => r matches Err(LlmError::MissingCredential(p)) && p == provider,
        },
{
    if let Some(e) = explicit {
        if nonempty(e) {
            return Ok(e.clone());
        }
    }
    if let Some(s) = &stored.credential {
        if nonempty(s) {
            return Ok(s.clone());
        }
    }
    if let Some(v) = env.get(provider) {
        if nonempty(v) {
            return Ok(v.clone());
        }
    }
    if provider == Provider::Ollama {
        Ok(String::new())
    } else {
        Err(LlmError::MissingCredential(provider))
    }
}

/// The plain value of an optional model identity.
pub open spec fn opt_identity(o: Option<ModelIdentity>) -> Option<(Provider, Seq<char>)> {
    match o {
        Some(id) => Some(id@),
        None => None,
    }
}

/// The model that a request goes to, with its parameters: the one asked for,
/// with the parameters configured for it or else the backend's defaults; or,
/// when none is asked for, the configured default. `None` means that none is
/// asked for and no default is set.
pub open spec fn selected(reg: RegistryView, requested: Option<(Provider, Seq<char>)>) -> Option<
    ((Provider, Seq<char>), ModelConfigView),
> {
    match requested {
        Some(k) => Some(
            (
                k,
                if reg.models.contains_key(k) {
                    reg.models[k]
                } else {
                    ModelConfigView::unset()
                },
            ),
        ),
        None => reg.default,
    }
}

/// How resolving a request ends, as plain values.
pub enum Resolution {
    Resolved((Provider, Seq<char>), ModelConfigView, Seq<char>),
    Absent,
    Missing(Provider),
}

/// The outcome of resolving a request: the model, its parameters and its
/// credential, or the reason why there is none.
pub open spec fn resolution(
    reg: RegistryView,
    requested: Option<(Provider, Seq<char>)>,
    explicit: Option<Seq<char>>,
    env: EnvCredentials,
) -> Resolution {
    match selected(reg, requested) {
        None => Resolution::Absent,
        Some((k, cfg)) => match credential_for(k.0, explicit, cfg.credential, env.value_of(k.0)) {
            Some(c) => Resolution::Resolved(k, cfg, c),
            None => Resolution::Missing(k.0),
        },
    }
}

/// A request ready to be sent: which model, with which parameters and which
/// credential (empty for the local backend).
#[derive(Debug)]
pub struct ResolvedRequest {
    pub identity: ModelIdentity,
    pub config: ModelConfig,
    pub credential: String,
}

/// Decides the model, parameters and credential of a request. `requested`
/// is the model that the caller asked for, if any; `explicit` is a
/// credential given at the call site.
pub fn resolve_request(
    registry: &ProviderRegistry,
    requested: Option<ModelIdentity>,
    explicit: &Option<String>,
    env: &EnvCredentials,
) -> (r: Result<ResolvedRequest, LlmError>)
    ensures
        match resolution(registry@, opt_identity(requested), opt_view(*explicit), *env) {
            Resolution::Resolved(k, cfg, c) => r matches Ok(q) && q.identity@ == k && q.config@
                == cfg && q.credential@ == c,
            Resolution::Absent => r matches Err(LlmError::ConfigurationAbsent),
            Resolution::Missing(p) => r matches Err(LlmError::MissingCredential(q)) && q == p,
        },
{
    let (identity, config) = match requested {
        Some(id) => {
            let config = match registry.lookup(id.provider(), id.model_name()) {
                Some(c) => c.clone(),
                None => ModelConfig::default(),
            };
            (id, config)
        },
        None => match registry.default_identity() {
            Some((id, c)) => (id.clone(), c.clone()),
            None => {
                return Err(LlmError::ConfigurationAbsent);
            },
        },
    };
    match resolve_credential(identity.provider(), explicit, &config, env) {
        Ok(credential) => Ok(ResolvedRequest { identity, config, credential }),
        Err(e) => Err(e),
    }
}

/// A non-empty explicit credential is the one a request carries, for every
/// provider, the local one included, whatever the configuration stores and
/// the environment holds.
pub proof fn explicit_credential_wins(
    reg: RegistryView,
    requested: Option<(Provider, Seq<char>)>,
    explicit: Seq<char>,
    env: EnvCredentials,
    k: (Provider, Seq<char>),
    cfg: ModelConfigView,
)
    requires
        explicit.len() > 0,
        selected(reg, requested) == Some((k, cfg)),
    ensures
        resolution(reg, requested, Some(explicit), env) == Resolution::Resolved(k, cfg, explicit),
{
}

/// A request for the local backend always resolves, also when no credential
/// is given, stored or set; with none, it carries the empty credential.
pub proof fn local_backend_always_resolves(
    reg: RegistryView,
    requested: Option<(Provider, Seq<char>)>,
    explicit: Option<Seq<char>>,
    env: EnvCredentials,
    k: (Provider, Seq<char>),
    cfg: ModelConfigView,
)
    requires
        k.0 == Provider::Ollama,
        selected(reg, requested) == Some((k, cfg)),
    ensures
        resolution(reg, requested, explicit, env) matches Resolution::Resolved(k2, cfg2, _) && k2
            == k && cfg2 == cfg,
        !present(explicit) && !present(cfg.credential) ==> resolution(
            reg,
            requested,
            explicit,
            env,
        ) == Resolution::Resolved(k, cfg, Seq::empty()),
{
}

/// A request for a remote backend with no credential given, stored or set
/// ends in `MissingCredential` for that provider, before any exchange is
/// planned.
pub proof fn remote_backend_needs_credential(
    reg: RegistryView,
    requested: Option<(Provider, Seq<char>)>,
    explicit: Option<Seq<char>>,
    env: EnvCredentials,
    k: (Provider, Seq<char>),
    cfg: ModelConfigView,
)
    requires
        k.0 != Provider::Ollama,
        selected(reg, requested) == Some((k, cfg)),
        !present(explicit),
        !present(cfg.credential),
        !present(env.value_of(k.0)),
    ensures
        resolution(reg, requested, explicit, env) == Resolution::Missing(k.0),
{
}

} // verus!
