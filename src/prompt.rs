//! What is sent to the completion provider: the prompt, the JSON payload and
//! the credential header.
use vstd::prelude::*;
use vstd::string::*;
use crate::json::{json_string, json_string_of};
use crate::classify::{decimal_of, decimal_string};

verus! {

/// The instruction put before the message. The message follows it as it is,
/// with nothing escaped.
pub const PROMPT_PREFIX: &'static str = "Your goal is to emulate Lion Catt by Purdue Universality and determine whether or not the message is authored by a pedophile, child predator, trafficker, or is potentially soliciting. Additionally, provide a threat level as an integer from 1 to 5, an analysis report of the message contents, and any other useful information. Message: ";

/// The completion endpoint of the provider.
pub const COMPLETIONS_URL: &'static str = "https://api.openai.com/v1/completions";

/// The model that the provider is asked to use.
pub const MODEL: &'static str = "text-davinci-003";

/// The bound on the length of the completion, in tokens.
pub const MAX_TOKENS: u8 = 100;

/// The environment variable that holds the provider's credential.
pub const API_KEY_VARIABLE: &'static str = "OPENAI_API_KEY";

/// The prompt for a message: the fixed instruction, then the message verbatim.
pub open spec fn prompt_of(content: Seq<char>) -> Seq<char> {
    PROMPT_PREFIX@ + content
}

/// The JSON payload of a completion call for a prompt, its keys in order.
pub open spec fn payload_of(prompt: Seq<char>) -> Seq<char> {
    "{\"max_tokens\":"@ + decimal_of(MAX_TOKENS as nat) + ",\"model\":"@ + json_string_of(MODEL@) + ",\"prompt\":"@
        + json_string_of(prompt) + "}"@
}

/// The value of the authorization header for a credential.
pub open spec fn authorization_of(api_key: Seq<char>) -> Seq<char> {
    "Bearer "@ + api_key
}

/// Builds the prompt for a message.
pub fn build_prompt(content: &str) -> (r: String)
    ensures
        r@ == prompt_of(content@),
{
    let mut out = PROMPT_PREFIX.to_owned();
    out.append(content);
    out
}

/// Builds the JSON payload of a completion call for a prompt.
pub fn completion_payload(prompt: &str) -> (r: String)
    ensures
        r@ == payload_of(prompt@),
{
    let mut out = "{\"max_tokens\":".to_owned();
    let max_tokens = decimal_string(MAX_TOKENS);
    out.append(max_tokens.as_str());
    out.append(",\"model\":");
    let model = json_string(MODEL);
    out.append(model.as_str());
    out.append(",\"prompt\":");
    let quoted = json_string(prompt);
    out.append(quoted.as_str());
    out.append("}");
    out
}

/// Builds the value of the authorization header for a credential.
pub fn authorization_value(api_key: &str) -> (r: String)
    ensures
        r@ == authorization_of(api_key@),
{
    let mut out = "Bearer ".to_owned();
    out.append(api_key);
    out
}

/// The message stands whole and unchanged at the end of its prompt, right
/// after the fixed instruction.
pub proof fn lemma_content_embedded_verbatim(content: Seq<char>)
    ensures
        prompt_of(content).len() == PROMPT_PREFIX@.len() + content.len(),
        prompt_of(content).subrange(0, PROMPT_PREFIX@.len() as int) == PROMPT_PREFIX@,
        prompt_of(content).subrange(PROMPT_PREFIX@.len() as int, prompt_of(content).len() as int)
            == content,
{
    let p = prompt_of(content);
    assert(p.subrange(0, PROMPT_PREFIX@.len() as int) =~= PROMPT_PREFIX@);
    assert(p.subrange(PROMPT_PREFIX@.len() as int, p.len() as int) =~= content);
}

} // verus!
