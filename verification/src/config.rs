//! Fixed configuration constants of the relay, and the choice of the
//! listening port.

use vstd::prelude::*;

verus! {

/// The upstream completion endpoint the relay forwards every request to.
pub const UPSTREAM_URL: &'static str = "https://api.openai.com/v1/chat/completions";

/// The port the server listens on when none is configured.
pub const DEFAULT_PORT: &'static str = "3000";

/// The fixed model identity named in every outbound completion request.
pub const MODEL_ID: &'static str = "gpt-4";

/// The fixed system instruction prepended to every outbound completion
/// request.
pub const PERSONA_PROMPT: &'static str = "You are AIBOY, a helpful AI assistant focused on blockchain and AI technology.";

/// The reply text substituted when the provider's reply cannot be extracted
/// from an otherwise successful upstream response.
pub const FALLBACK_MESSAGE: &'static str = "Sorry, I couldn't process that request.";

/// The error text returned to the client when the upstream provider rejects
/// the request.
pub const GATEWAY_ERROR_MESSAGE: &'static str = "OpenAI API error";

/// Picks the configured port when one is present, the default otherwise.
pub fn port_or_default(configured: Option<String>) -> (r: String)
    ensures
        match configured {
            Some(p) => r@ == p@,
            None => r@ == DEFAULT_PORT@,
        },
{
    match configured {
        Some(p) => p,
        None => DEFAULT_PORT.to_owned(),
    }
}

} // verus!
