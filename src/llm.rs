use vstd::prelude::*;
use vstd::string::*;

use crate::config::{opt_view, ModelConfigView};
use crate::config::ModelIdentity;
use crate::credential::{
    opt_identity, resolution, resolve_request, EnvCredentials, ResolvedRequest, Resolution,
};
use crate::registry::ProviderRegistry;
use crate::error::LlmError;
use crate::provider::Provider;

verus! {

/// One message of a chat exchange.
#[derive(Debug)]
pub struct ChatMessage {
    pub role: String,
    pub content: String,
}

/// The request that a chat backend receives.
#[derive(Debug)]
pub struct ChatRequest {
    pub model: String,
    pub messages: Vec<ChatMessage>,
    /// IEEE-754 bit pattern of the sampling temperature, if one is set.
    pub temperature_bits: Option<u32>,
    pub max_tokens: Option<u32>,
}

/// The one exchange that a request turns into, for the caller to perform.
#[derive(Debug)]
pub enum BackendCall {
    /// A generation request to the local backend, at `base_url` or else at
    /// its default address. The local backend takes no temperature or token
    /// limit: those parameters are not sent.
    Ollama { model: String, prompt: String, base_url: Option<String> },
    /// A chat request to a remote backend, authenticated by `credential`.
    /// The remote clients reach each backend at its own fixed address, so
    /// an alternate base address is not sent.
    Chat { provider: Provider, credential: String, request: ChatRequest },
}

impl BackendCall {
    pub open spec fn spec_provider(&self) -> Provider {
        match self {
            BackendCall::Ollama { .. } => Provider::Ollama,
            BackendCall::Chat { provider, .. } => *provider,
        }
    }

    /// The backend that the exchange goes to.
    pub fn provider(&self) -> (r: Provider)
        ensures
            r == self.spec_provider(),
    {
        match self {
            BackendCall::Ollama { .. } => Provider::Ollama,
            BackendCall::Chat { provider, .. } => *provider,
        }
    }
}

/// `r` is what `plan_call` gives for `prompt` and `request`: the local
/// backend gets the model name, the prompt and the alternate address; a
/// remote backend gets the credential and a chat request holding one user
/// message with the prompt, the model name, the temperature and the token
/// limit; a remote backend without a credential gives `MissingCredential`.
pub open spec fn planned(
    prompt: Seq<char>,
    model: (Provider, Seq<char>),
    config: ModelConfigView,
    credential: Seq<char>,
    r: Result<BackendCall, LlmError>,
) -> bool {
    let p = model.0;
    if p == Provider::Ollama {
        r matches Ok(BackendCall::Ollama { model: name, prompt: text, base_url }) && name@
            == model.1 && text@ == prompt && opt_view(base_url) == config.base_url
    } else if credential.len() == 0 {
        r matches Err(LlmError::MissingCredential(q)) && q == p
    } else {
        r matches Ok(BackendCall::Chat { provider, credential: key, request: chat }) && provider
            == p && key@ == credential && chat.model@ == model.1 && chat.messages@.len() == 1
            && chat.messages@[0].role@ == "user"@ && chat.messages@[0].content@ == prompt
            && chat.temperature_bits == config.temperature_bits && chat.max_tokens
            == config.max_output_tokens
    }
}

/// `r` is what `plan_call` gives for `prompt` and `request`.
pub open spec fn planned_for(
    prompt: Seq<char>,
    request: ResolvedRequest,
    r: Result<BackendCall, LlmError>,
) -> bool {
    planned(prompt, request.identity@, request.config@, request.credential@, r)
}

/// Turns a prompt and a resolved request into the exchange with the backend
/// of the request's provider. A remote backend is never planned without a
/// credential.
pub fn plan_call(prompt: String, request: &ResolvedRequest) -> (r: Result<BackendCall, LlmError>)
    ensures
        planned_for(prompt@, *request, r),
{
    let provider = request.identity.provider();
    let model = String::from_str(request.identity.model_name());
    match provider {
        Provider::Ollama => {
            let base_url = match &request.config.base_url {
                Some(u) => Some(u.clone()),
                None => None,
            };
            Ok(BackendCall::Ollama { model, prompt, base_url })
        },
        _ => {
            if request.credential.as_str().unicode_len() == 0 {
                return Err(LlmError::MissingCredential(provider));
            }
            let message = ChatMessage { role: String::from_str("user"), content: prompt };
            let mut messages: Vec<ChatMessage> = Vec::new();
            messages.push(message);
            let chat = ChatRequest {
                model,
                messages,
                temperature_bits: request.config.temperature_bits,
                max_tokens: request.config.max_output_tokens,
            };
            Ok(BackendCall::Chat { provider, credential: request.credential.clone(), request: chat })
        },
    }
}

/// The segments of a reply joined in order, with nothing between them.
pub open spec fn joined(s: Seq<String>) -> Seq<char>
    decreases s.len(),
{
    if s.len() == 0 {
        Seq::empty()
    } else {
        joined(s.drop_last()) + s.last()@
    }
}

/// Joins the segments of a reply in the order the backend gave them.
pub fn join_segments(segments: &Vec<String>) -> (r: String)
    ensures
        r@ == joined(segments@),
{
    let mut out = String::new();
    let n: usize = segments.len();
    let mut i: usize = 0;
    while i < n
        invariant
            n == segments@.len(),
            0 <= i <= n,
            out@ == joined(segments@.subrange(0, i as int)),
        decreases n - i,
    {
        proof {
            let s = segments@.subrange(0, i as int + 1);
            assert(s.drop_last() =~= segments@.subrange(0, i as int));
        }
        out.append(segments[i].as_str());
        i = i + 1;
    }
    proof {
        assert(segments@.subrange(0, n as int) =~= segments@);
    }
    out
}

/// Turns what the backend of `provider` gave back into the reply: the
/// segments joined in order, or a `BackendFailure` carrying the backend's
/// own account of what went wrong. Nothing is retried.
pub fn finish_call(provider: Provider, outcome: Result<Vec<String>, String>) -> (r: Result<
    String,
    LlmError,
>)
    ensures
        match outcome {
            Ok(segments) => r matches Ok(text) && text@ == joined(segments@),
            Err(detail) => r matches Err(LlmError::BackendFailure(p, d)) && p == provider && d@
                == detail@,
        },
{
    match outcome {
        Ok(segments) => Ok(join_segments(&segments)),
        Err(detail) => Err(LlmError::BackendFailure(provider, detail)),
    }
}

/// Takes a request from the model asked for (if any) and the explicit
/// credential (if any) to the exchange with the chosen backend. Every failure
/// comes before the exchange: where this returns an error, nothing is sent.
pub fn prepare_call(
    registry: &ProviderRegistry,
    requested: Option<ModelIdentity>,
    explicit: &Option<String>,
    env: &EnvCredentials,
    prompt: String,
) -> (r: Result<BackendCall, LlmError>)
    ensures
        match resolution(registry@, opt_identity(requested), opt_view(*explicit), *env) {
            Resolution::Resolved(k, cfg, c) => planned(prompt@, k, cfg, c, r),
            Resolution::Absent => r matches Err(LlmError::ConfigurationAbsent),
            Resolution::Missing(p) => r matches Err(LlmError::MissingCredential(q)) && q == p,
        },
{
    match resolve_request(registry, requested, explicit, env) {
        Ok(request) => plan_call(prompt, &request),
        Err(e) => Err(e),
    }
}

} // verus!
