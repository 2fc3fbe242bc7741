use vstd::prelude::*;
use crate::json::{json_quoted, quote_json};

verus! {

/// The remote chat-completion endpoint.
pub open spec fn endpoint_url() -> Seq<char> {
    "https://api.openai.com/v1/chat/completions"@
}

/// The model that is asked.
pub open spec fn model_name() -> Seq<char> {
    "gpt-5.1"@
}

/// The system message: the persona of the assistant.
pub open spec fn system_instruction() -> Seq<char> {
    "You are an expert at creating pixel-perfect HTML and Tailwind CSS code from screenshots. Your response should be only the code, with no explanations or extra text."@
}

/// The text that goes with the screenshot in the user message.
pub open spec fn user_instruction() -> Seq<char> {
    "Convert this screenshot into pixel-perfect HTML code using Tailwind CSS. Add a small amount of padding (like p-2 or p-4) to the outermost div for breathing room. Return only the HTML code, no explanations."@
}

/// The value of the `Authorization` header for a credential.
pub open spec fn bearer(credential: Seq<char>) -> Seq<char> {
    "Bearer "@ + credential
}

/// The JSON body before the image payload: the model, the system message and
/// the user message up to the image reference.
pub open spec fn envelope_head() -> Seq<char> {
    "{\"model\":"@ + json_quoted(model_name())
        + ",\"messages\":[{\"role\":\"system\",\"content\":"@
        + json_quoted(system_instruction())
        + "},{\"role\":\"user\",\"content\":[{\"type\":\"text\",\"text\":"@
        + json_quoted(user_instruction())
        + "},{\"type\":\"image_url\",\"image_url\":{\"url\":"@
}

/// The JSON body after the image payload: the brackets that close it.
pub open spec fn envelope_tail() -> Seq<char> {
    "}}]}]}"@
}

/// The JSON body of the request for an image payload.
pub open spec fn request_body(image_data: Seq<char>) -> Seq<char> {
    envelope_head() + json_quoted(image_data) + envelope_tail()
}

/// One outbound POST: where it goes, its `Authorization` header and its JSON
/// body.
#[derive(Debug)]
pub struct ChatRequest {
    pub url: String,
    pub authorization: String,
    pub body: String,
}

impl ChatRequest {
    /// The request that this client sends for a credential and an image payload.
    pub open spec fn describes(&self, credential: Seq<char>, image_data: Seq<char>) -> bool {
        &&& self.url@ == endpoint_url()
        &&& self.authorization@ == bearer(credential)
        &&& self.body@ == request_body(image_data)
    }

    /// Frames the request for `credential` and `image_data`. Neither is
    /// checked: both are sent as they are, and the remote service decides.
    pub fn new(credential: &str, image_data: &str) -> (r: ChatRequest)
        ensures
            r.describes(credential@, image_data@),
    {
        ChatRequest {
            url: String::from_str("https://api.openai.com/v1/chat/completions"),
            authorization: authorization_value(credential),
            body: envelope(image_data),
        }
    }
}

/// The `Authorization` header value: the credential as a bearer token.
pub fn authorization_value(credential: &str) -> (r: String)
    ensures
        r@ == bearer(credential@),
{
    let mut r = String::from_str("Bearer ");
    r.append(credential);
    r
}

/// The JSON body that embeds `image_data` as the image reference of the user
/// message.
pub fn envelope(image_data: &str) -> (r: String)
    ensures
        r@ == request_body(image_data@),
{
    let mut r = String::from_str("{\"model\":");
    let model = quote_json("gpt-5.1");
    r.append(model.as_str());
    r.append(",\"messages\":[{\"role\":\"system\",\"content\":");
    let system = quote_json(
        "You are an expert at creating pixel-perfect HTML and Tailwind CSS code from screenshots. Your response should be only the code, with no explanations or extra text.",
    );
    r.append(system.as_str());
    r.append("},{\"role\":\"user\",\"content\":[{\"type\":\"text\",\"text\":");
    let user = quote_json(
        "Convert this screenshot into pixel-perfect HTML code using Tailwind CSS. Add a small amount of padding (like p-2 or p-4) to the outermost div for breathing room. Return only the HTML code, no explanations.",
    );
    r.append(user.as_str());
    r.append("},{\"type\":\"image_url\",\"image_url\":{\"url\":");
    let image = quote_json(image_data);
    r.append(image.as_str());
    r.append("}}]}]}");
    r
}

/// The image payload reaches the body untouched: the body is a fixed head,
/// the JSON text of exactly the caller's payload, and a fixed tail, so two
/// bodies differ only where their payloads' JSON texts differ.
pub proof fn lemma_image_payload_embedded(image_data: Seq<char>, other: Seq<char>)
    ensures
        request_body(image_data) == envelope_head() + json_quoted(image_data) + envelope_tail(),
        request_body(image_data).subrange(
            envelope_head().len() as int,
            (envelope_head().len() + json_quoted(image_data).len()) as int,
        ) == json_quoted(image_data),
        json_quoted(image_data) == json_quoted(other) ==> request_body(image_data)
            == request_body(other),
{
    let head = envelope_head();
    let q = json_quoted(image_data);
    assert((head + q + envelope_tail()).subrange(head.len() as int, (head.len() + q.len()) as int) =~= q);
}

} // verus!
