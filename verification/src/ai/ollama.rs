//! The local-daemon adapter: no auth, a fixed loopback endpoint, a flat
//! generate body with streaming disabled, and the answer under `response`.
//! Unlike the cloud adapters, a missing answer field becomes the empty
//! string.

use vstd::prelude::*;
use vstd::string::*;

use crate::ai::{
    handle_json_response, normalize_image, normalize_image_spec, opt_view, text_response_spec,
    AdapterError, OutboundRequest,
};
use crate::text::{
    chars_of_str, json_quoted, push_json_quoted, push_str_chars, string_from_chars, trim_chars,
    trim_spec,
};

verus! {

/// The fixed loopback endpoint this adapter posts to.
pub open spec fn endpoint_spec() -> Seq<char> {
    "http://localhost:11434/api/generate"@
}

pub open spec fn images_part_spec(image: Option<Seq<char>>) -> Seq<char> {
    match image {
        None => Seq::<char>::empty(),
        Some(b) => ",\"images\":["@ + json_quoted(b) + "]"@,
    }
}

/// The request body: model, prompt, streaming disabled, and an image list
/// holding the bare base64 payload only when an image was supplied.
pub open spec fn body_spec(model: Seq<char>, prompt: Seq<char>, image: Option<Seq<char>>) -> Seq<
    char,
> {
    "{\"model\":"@ + json_quoted(model) + ",\"prompt\":"@ + json_quoted(prompt)
        + ",\"stream\":false"@ + images_part_spec(image) + "}"@
}

/// The field path holding the answer text in a successful response.
pub open spec fn answer_pointer_spec() -> Seq<char> {
    "/response"@
}

/// Translates the generic ask into this backend's wire request. The local
/// daemon takes no credential.
pub fn build_request(model: &str, prompt: &str, image_base64: Option<&str>) -> (r: OutboundRequest)
    ensures
        r.url@ == endpoint_spec(),
        r.bearer is None,
        r.body@ == body_spec(
            trim_spec(model@),
            prompt@,
            normalize_image_spec(opt_view(image_base64)),
        ),
{
    let model_chars = chars_of_str(model);
    let model_trimmed = trim_chars(&model_chars);
    let normalized = normalize_image(image_base64);
    let mut v: Vec<char> = Vec::new();
    push_str_chars(&mut v, "{\"model\":");
    push_json_quoted(&mut v, &model_trimmed);
    push_str_chars(&mut v, ",\"prompt\":");
    let prompt_chars = chars_of_str(prompt);
    push_json_quoted(&mut v, &prompt_chars);
    push_str_chars(&mut v, ",\"stream\":false");
    match &normalized {
        None => {},
        Some(b) => {
            push_str_chars(&mut v, ",\"images\":[");
            push_json_quoted(&mut v, b);
            push_str_chars(&mut v, "]");
        },
    }
    push_str_chars(&mut v, "}");
    proof {
        assert(v@ =~= body_spec(
            trim_spec(model@),
            prompt@,
            normalize_image_spec(opt_view(image_base64)),
        ));
    }
    OutboundRequest {
        url: String::from_str("http://localhost:11434/api/generate"),
        bearer: None,
        body: string_from_chars(&v),
    }
}

/// Reads this backend's response envelope; a missing answer field becomes the
/// empty string.
pub fn handle_response(status: u16, body: &str) -> (r: Result<String, AdapterError>)
    ensures
        text_response_spec(status, body@, answer_pointer_spec(), ""@, r),
{
    handle_json_response(status, body, "/response", "")
}

} // verus!
