//! The OpenAI-style adapter: bearer-token auth, a fixed chat-completions
//! endpoint, and the answer under `choices[0].message.content`.

use vstd::prelude::*;
use vstd::string::*;

use crate::ai::{
    build_chat_body, chat_body_spec, handle_json_response, normalize_image_spec, opt_view,
    text_response_spec, AdapterError, OutboundRequest,
};
use crate::text::{chars_of_str, string_from_chars, trim_chars, trim_spec};

verus! {

/// The fixed endpoint this adapter posts to.
pub open spec fn endpoint_spec() -> Seq<char> {
    "https://api.openai.com/v1/chat/completions"@
}

/// The field path holding the answer text in a successful response.
pub open spec fn answer_pointer_spec() -> Seq<char> {
    "/choices/0/message/content"@
}

/// Translates the generic ask into this backend's wire request.
pub fn build_request(api_key: &str, model: &str, prompt: &str, image_base64: Option<&str>) -> (r:
    OutboundRequest)
    ensures
        r.url@ == endpoint_spec(),
        r.bearer matches Some(k) && k@ == trim_spec(api_key@),
        r.body@ == chat_body_spec(
            trim_spec(model@),
            prompt@,
            normalize_image_spec(opt_view(image_base64)),
        ),
{
    let key_chars = chars_of_str(api_key);
    let key_trimmed = trim_chars(&key_chars);
    let model_chars = chars_of_str(model);
    let model_trimmed = trim_chars(&model_chars);
    let body = build_chat_body(&model_trimmed, prompt, image_base64);
    OutboundRequest {
        url: String::from_str("https://api.openai.com/v1/chat/completions"),
        bearer: Some(string_from_chars(&key_trimmed)),
        body,
    }
}

/// Reads this backend's response envelope; a missing answer field becomes the
/// "No response" placeholder.
pub fn handle_response(status: u16, body: &str) -> (r: Result<String, AdapterError>)
    ensures
        text_response_spec(status, body@, answer_pointer_spec(), "No response"@, r),
{
    handle_json_response(status, body, "/choices/0/message/content", "No response")
}

} // verus!
