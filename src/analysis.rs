//! The image-analysis gateway: the provider request and the reading of its answer.

use vstd::prelude::*;
use crate::error::GatewayError;
use crate::json::{json_parses, json_quoted, object_members, parse_value, quote};
use crate::naming::{decimal, decimal_text};
use crate::request::{analysis_request_of, decode_analysis_request, opt_string_view};

verus! {

/// The instruction sent when the caller gives none.
pub const DEFAULT_PROMPT: &'static str = "Please analyze this image and estimate macros/calories.";

/// The chat-completion endpoint of the provider.
pub const PROVIDER_ENDPOINT: &'static str = "https://openrouter.ai/api/v1/chat/completions";

pub open spec fn prompt_of(prompt: Option<Seq<char>>) -> Seq<char> {
    match prompt {
        Some(p) => p,
        None => DEFAULT_PROMPT@,
    }
}

/// The chat-completion request: one user message whose content is the text
/// part and then the image part.
pub open spec fn payload_of(image_url: Seq<char>, prompt: Seq<char>) -> Seq<char> {
    "{\"model\":\"openai/gpt-4.1-nano\",\"messages\":[{\"role\":\"user\",\"content\":[{\"type\":\"text\",\"text\":"@
        + json_quoted(prompt) + "},{\"type\":\"image_url\",\"image_url\":{\"url\":"@
        + json_quoted(image_url) + "}}]}]}"@
}

pub open spec fn is_success(status: u16) -> bool {
    200 <= status < 300
}

/// The message of a failed provider call: the status as HTTP writes it, and
/// the body as received.
pub open spec fn upstream_message(status: u16, reason: Option<Seq<char>>, body: Seq<char>) -> Seq<
    char,
> {
    let reason_text = match reason {
        Some(r) => r,
        None => "<unknown status code>"@,
    };
    "OpenRouter responded with "@ + decimal(status as int) + " "@ + reason_text + ": "@ + body
}

/// Whether `needle` occurs in `hay` as a contiguous run.
pub open spec fn occurs_in(needle: Seq<char>, hay: Seq<char>) -> bool {
    exists|i: int| 0 <= i <= hay.len() - needle.len() && #[trigger] hay.subrange(i, i + needle.len()) == needle
}

/// The one outbound call of an analysis.
#[derive(Debug)]
pub struct AnalysisCall {
    pub endpoint: String,
    pub api_key: String,
    pub payload: String,
}

/// The instruction to send: the caller's, or the default one.
pub fn prompt_text(prompt: Option<String>) -> (r: String)
    ensures
        r@ == prompt_of(opt_string_view(prompt)),
{
    match prompt {
        Some(p) => p,
        None => String::from_str(DEFAULT_PROMPT),
    }
}

/// The JSON body of the chat-completion request.
pub fn chat_payload(image_url: &str, prompt: Option<String>) -> (r: String)
    ensures
        r@ == payload_of(image_url@, prompt_of(opt_string_view(prompt))),
{
    let text = prompt_text(prompt);
    let r = String::from_str(
        "{\"model\":\"openai/gpt-4.1-nano\",\"messages\":[{\"role\":\"user\",\"content\":[{\"type\":\"text\",\"text\":",
    ).concat(quote(text.as_str()).as_str()).concat(
        "},{\"type\":\"image_url\",\"image_url\":{\"url\":",
    ).concat(quote(image_url).as_str()).concat("}}]}]}");
    r
}

/// Decides the outbound call for a request body, given the provider
/// credential if one is configured. No call is planned when the credential is
/// missing or the body cannot be read.
pub fn plan_analysis(api_key: Option<String>, body: &[u8]) -> (r: Result<AnalysisCall, GatewayError>)
    ensures
        api_key is None ==> (r matches Err(e) && e is Configuration),
        api_key is Some ==> (r is Ok <==> object_members(body@) is Some && analysis_request_of(
            object_members(body@)->Some_0,
        ) is Some),
        api_key is Some && r is Err ==> (r matches Err(e) && e is MalformedRequest),
        r matches Ok(c) ==> {
            let q = analysis_request_of(object_members(body@)->Some_0)->Some_0;
            &&& c.endpoint@ == PROVIDER_ENDPOINT@
            &&& api_key == Some(c.api_key)
            &&& c.payload@ == payload_of(q.0, prompt_of(q.1))
        },
{
    let key = match api_key {
        Some(k) => k,
        None => {
            return Err(
                GatewayError::Configuration(
                    String::from_str("OPENROUTER_API_KEY environment variable not set"),
                ),
            );
        },
    };
    let request = decode_analysis_request(body)?;
    let payload = chat_payload(request.image_url.as_str(), request.prompt);
    Ok(AnalysisCall { endpoint: String::from_str(PROVIDER_ENDPOINT), api_key: key, payload })
}

/// The failure message for a provider status and body.
pub fn upstream_error_message(status: u16, reason: Option<&str>, body: &str) -> (r: String)
    ensures
        r@ == upstream_message(status, crate::naming::opt_view(reason), body@),
{
    let reason_text = match reason {
        Some(t) => t,
        None => "<unknown status code>",
    };
    let code = decimal_text(status as i64);
    String::from_str("OpenRouter responded with ").concat(code.as_str()).concat(" ").concat(
        reason_text,
    ).concat(": ").concat(body)
}

/// Reads the provider's answer: a 2xx status with a JSON body gives that JSON
/// unchanged; anything else is an upstream failure.
pub fn interpret_response(status: u16, reason: Option<&str>, body: &str) -> (r: Result<
    serde_json::Value,
    GatewayError,
>)
    ensures
        !is_success(status) ==> (r matches Err(GatewayError::Upstream(m)) && m@ == upstream_message(
            status,
            crate::naming::opt_view(reason),
            body@,
        )),
        is_success(status) ==> (r is Ok <==> json_parses(body@)),
        r matches Err(e) ==> e is Upstream,
{
    if status < 200 || status >= 300 {
        return Err(GatewayError::Upstream(upstream_error_message(status, reason, body)));
    }
    match parse_value(body) {
        Ok(v) => Ok(v),
        Err(m) => Err(GatewayError::Upstream(m)),
    }
}

/// A failed provider call names the status code and carries the body it
/// answered with.
pub proof fn lemma_upstream_message_names_status_and_body(
    status: u16,
    reason: Option<Seq<char>>,
    body: Seq<char>,
)
    ensures
        occurs_in(decimal(status as int), upstream_message(status, reason, body)),
        occurs_in(body, upstream_message(status, reason, body)),
{
    let m = upstream_message(status, reason, body);
    let lead = "OpenRouter responded with "@;
    let code = decimal(status as int);
    assert(m.subrange(lead.len() as int, (lead.len() + code.len()) as int) =~= code);
    assert(m.subrange(m.len() - body.len(), m.len() as int) =~= body);
}

} // verus!
