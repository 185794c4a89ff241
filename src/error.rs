use vstd::prelude::*;
use vstd::string::*;

use crate::provider::Provider;

verus! {

/// Everything that can go wrong between a request and the model's reply.
#[derive(Debug)]
pub enum LlmError {
    /// The text does not name any known provider.
    UnknownProvider(String),
    /// A model was asked for in a shape that names no provider and model.
    InvalidModelFormat(String),
    /// The provider needs a credential and none was found.
    MissingCredential(Provider),
    /// The backend was reached and the exchange failed; the text says how.
    BackendFailure(Provider, String),
    /// No model was asked for and the configuration names no default.
    ConfigurationAbsent,
}

impl LlmError {
    /// The text that tells a user what went wrong.
    pub open spec fn spec_message(&self) -> Seq<char> {
        match self {
            LlmError::UnknownProvider(_) => "Undefined LLM provider"@,
            LlmError::InvalidModelFormat(t) => "invalid model, expected provider/model: "@ + t@,
            LlmError::MissingCredential(_) => "API key not found"@,
            LlmError::BackendFailure(p, d) => if *p == Provider::Ollama {
                "Ollama error: "@ + d@
            } else {
                "Other error: "@ + d@
            },
            LlmError::ConfigurationAbsent => "no model requested and no default model configured"@,
        }
    }

    pub fn message(&self) -> (r: String)
        ensures
            r@ == self.spec_message(),
    {
        match self {
            LlmError::UnknownProvider(_) => String::from_str("Undefined LLM provider"),
            LlmError::InvalidModelFormat(t) => {
                let mut s = String::from_str("invalid model, expected provider/model: ");
                s.append(t.as_str());
                s
            },
            LlmError::MissingCredential(_) => String::from_str("API key not found"),
            LlmError::BackendFailure(p, d) => {
                let mut s = if *p == Provider::Ollama {
                    String::from_str("Ollama error: ")
                } else {
                    String::from_str("Other error: ")
                };
                s.append(d.as_str());
                s
            },
            LlmError::ConfigurationAbsent => String::from_str(
                "no model requested and no default model configured",
            ),
        }
    }
}

} // verus!
