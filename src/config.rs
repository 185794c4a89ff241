use vstd::prelude::*;
use vstd::string::*;

use crate::error::LlmError;
use crate::provider::{provider_named, Provider};

verus! {

/// The plain value of an optional string.
pub open spec fn opt_view(o: Option<String>) -> Option<Seq<char>> {
    match o {
        Some(s) => Some(s@),
        None => None,
    }
}

/// The connection parameters of one model, seen as plain values.
pub struct ModelConfigView {
    pub credential: Option<Seq<char>>,
    pub temperature_bits: Option<u32>,
    pub max_output_tokens: Option<u32>,
    pub base_url: Option<Seq<char>>,
}

impl ModelConfigView {
    /// Every parameter left to the backend's own default.
    pub open spec fn unset() -> ModelConfigView {
        ModelConfigView {
            credential: None,
            temperature_bits: None,
            max_output_tokens: None,
            base_url: None,
        }
    }
}

/// Per-model connection parameters. A field left `None` means that the
/// backend's own default applies.
///
/// The sampling temperature is kept as the IEEE-754 bit pattern of a 32-bit
/// float, so that it is carried through unchanged; it is not validated here.
#[derive(Debug)]
pub struct ModelConfig {
    pub credential: Option<String>,
    pub temperature_bits: Option<u32>,
    pub max_output_tokens: Option<u32>,
    pub base_url: Option<String>,
}

impl View for ModelConfig {
    type V = ModelConfigView;

    open spec fn view(&self) -> ModelConfigView {
        ModelConfigView {
            credential: opt_view(self.credential),
            temperature_bits: self.temperature_bits,
            max_output_tokens: self.max_output_tokens,
            base_url: opt_view(self.base_url),
        }
    }
}

fn clone_opt(o: &Option<String>) -> (r: Option<String>)
    ensures
        opt_view(r) == opt_view(*o),
{
    match o {
        Some(s) => Some(s.clone()),
        None => None,
    }
}

fn eq_opt(a: &Option<String>, b: &Option<String>) -> (r: bool)
    ensures
        r == (opt_view(*a) == opt_view(*b)),
{
    match (a, b) {
        (Some(x), Some(y)) => x.eq(y),
        (None, None) => true,
        _ => false,
    }
}

fn eq_opt_u32(a: Option<u32>, b: Option<u32>) -> (r: bool)
    ensures
        r == (a == b),
{
    match (a, b) {
        (Some(x), Some(y)) => x == y,
        (None, None) => true,
        _ => false,
    }
}

impl ModelConfig {
    pub fn new(
        credential: Option<String>,
        temperature_bits: Option<u32>,
        max_output_tokens: Option<u32>,
        base_url: Option<String>,
    ) -> (r: ModelConfig)
        ensures
            r@.credential == opt_view(credential),
            r@.temperature_bits == temperature_bits,
            r@.max_output_tokens == max_output_tokens,
            r@.base_url == opt_view(base_url),
    {
        ModelConfig { credential, temperature_bits, max_output_tokens, base_url }
    }
}

impl Default for ModelConfig {
    fn default() -> (r: ModelConfig)
        ensures
            r@ == ModelConfigView::unset(),
    {
        ModelConfig {
            credential: None,
            temperature_bits: None,
            max_output_tokens: None,
            base_url: None,
        }
    }
}

impl Clone for ModelConfig {
    fn clone(&self) -> (r: ModelConfig)
        ensures
            r@ == self@,
    {
        ModelConfig {
            credential: clone_opt(&self.credential),
            temperature_bits: self.temperature_bits,
            max_output_tokens: self.max_output_tokens,
            base_url: clone_opt(&self.base_url),
        }
    }
}

impl PartialEq for ModelConfig {
    fn eq(&self, other: &ModelConfig) -> (r: bool) {
        eq_opt(&self.credential, &other.credential) && eq_opt_u32(
            self.temperature_bits,
            other.temperature_bits,
        ) && eq_opt_u32(self.max_output_tokens, other.max_output_tokens) && eq_opt(
            &self.base_url,
            &other.base_url,
        )
    }
}

impl vstd::std_specs::cmp::PartialEqSpecImpl for ModelConfig {
    open spec fn obeys_eq_spec() -> bool {
        true
    }

    open spec fn eq_spec(&self, other: &ModelConfig) -> bool {
        self@ == other@
    }
}

/// `k` is the position of the first `/` in `s`.
pub open spec fn first_slash_at(s: Seq<char>, k: int) -> bool {
    &&& 0 <= k < s.len()
    &&& s[k] == '/'
    &&& forall|j: int| 0 <= j < k ==> s[j] != '/'
}

/// A provider together with one of its model names. Model names are compared
/// exactly: their case matters.
#[derive(Debug)]
pub struct ModelIdentity {
    provider: Provider,
    model_name: String,
}

impl View for ModelIdentity {
    type V = (Provider, Seq<char>);

    closed spec fn view(&self) -> (Provider, Seq<char>) {
        (self.provider, self.model_name@)
    }
}

impl Clone for ModelIdentity {
    fn clone(&self) -> (r: ModelIdentity)
        ensures
            r@ == self@,
    {
        proof {
            use_type_invariant(self);
        }
        ModelIdentity { provider: self.provider, model_name: self.model_name.clone() }
    }
}

impl PartialEq for ModelIdentity {
    fn eq(&self, other: &ModelIdentity) -> (r: bool) {
        self.provider == other.provider && self.model_name.eq(&other.model_name)
    }
}

impl vstd::std_specs::cmp::PartialEqSpecImpl for ModelIdentity {
    open spec fn obeys_eq_spec() -> bool {
        true
    }

    open spec fn eq_spec(&self, other: &ModelIdentity) -> bool {
        self@ == other@
    }
}

impl ModelIdentity {
    /// The model name is not empty.
    #[verifier::type_invariant]
    closed spec fn wf(&self) -> bool {
        self.model_name@.len() > 0
    }

    pub fn provider(&self) -> (r: Provider)
        ensures
            r == self@.0,
    {
        self.provider
    }

    pub fn model_name(&self) -> (r: &str)
        ensures
            r@ == self@.1,
            r@.len() > 0,
    {
        proof {
            use_type_invariant(self);
        }
        self.model_name.as_str()
    }

    /// Pairs a provider with a model name; an empty name is refused.
    pub fn new(provider: Provider, model_name: String) -> (r: Result<ModelIdentity, LlmError>)
        ensures
            model_name@.len() > 0 ==> (r matches Ok(id) && id@ == (provider, model_name@)
               ),
            model_name@.len() == 0 ==> (r matches Err(LlmError::InvalidModelFormat(t)) && t@
                == model_name@),
    {
        if model_name.unicode_len() == 0 {
            Err(LlmError::InvalidModelFormat(model_name))
        } else {
            Ok(ModelIdentity { provider, model_name })
        }
    }

    /// Reads a provider name and a model name given apart. The provider name
    /// must name a provider, ignoring letter case, and the model name
    /// must not be empty.
    pub fn from_parts(provider: &str, model: &str) -> (r: Result<ModelIdentity, LlmError>)
        ensures
            match provider_named(provider@) {
                None => r matches Err(LlmError::UnknownProvider(t)) && t@ == provider@,
                Some(p) => if model@.len() == 0 {
                    r matches Err(LlmError::InvalidModelFormat(t)) && t@ == model@
                } else {
                    r matches Ok(id) && id@ == (p, model@)
                },
            },
    {
        match Provider::parse(provider) {
            None => Err(LlmError::UnknownProvider(String::from_str(provider))),
            Some(p) => ModelIdentity::new(p, String::from_str(model)),
        }
    }

    /// Reads a `provider/model` token, split at its first `/`. Text without
    /// a `/`, or with nothing after it, is refused with the whole token.
    pub fn parse(token: &str) -> (r: Result<ModelIdentity, LlmError>)
        ensures
            (forall|i: int| 0 <= i < token@.len() ==> token@[i] != '/') ==> (r matches Err(
                LlmError::InvalidModelFormat(t),
            ) && t@ == token@),
            forall|k: int|
                first_slash_at(token@, k) ==> match provider_named(token@.subrange(0, k)) {
                    None => r matches Err(LlmError::UnknownProvider(t)) && t@ == token@.subrange(
                        0,
                        k,
                    ),
                    Some(p) => if k + 1 == token@.len() {
                        r matches Err(LlmError::InvalidModelFormat(t)) && t@ == token@
                    } else {
                        r matches Ok(id) && id@ == (p, token@.subrange(k + 1, token@.len() as int))
                           
                    },
                },
    {
        let n: usize = token.unicode_len();
        let mut k: usize = 0;
        while k < n && token.get_char(k) != '/'
            invariant
                n == token@.len(),
                0 <= k <= n,
                forall|j: int| 0 <= j < k ==> token@[j] != '/',
            decreases n - k,
        {
            k = k + 1;
        }
        if k == n {
            return Err(LlmError::InvalidModelFormat(String::from_str(token)));
        }
        let provider = token.substring_char(0, k);
        let model = token.substring_char(k + 1, n);
        match Provider::parse(provider) {
            None => Err(LlmError::UnknownProvider(String::from_str(provider))),
            Some(p) => if k + 1 == n {
                Err(LlmError::InvalidModelFormat(String::from_str(token)))
            } else {
                Ok(ModelIdentity { provider: p, model_name: String::from_str(model) })
            },
        }
    }
}

/// One model entry of the persisted configuration: the provider's name as
/// written there, the model's name, and its parameters.
#[derive(Debug)]
pub struct Model {
    pub provider: String,
    pub model: String,
    pub config: ModelConfig,
}

impl Model {
    pub fn new(provider: &str, model: &str, config: ModelConfig) -> (r: Model)
        ensures
            r.provider@ == provider@,
            r.model@ == model@,
            r.config@ == config@,
    {
        Model { provider: String::from_str(provider), model: String::from_str(model), config }
    }
}

/// The persisted configuration as a loader hands it over: the model entries
/// in the order they were read, and the optional default model with its own
/// parameters.
#[derive(Debug)]
pub struct Config {
    pub models: Vec<Model>,
    pub default_model: Option<Model>,
}

} // verus!
