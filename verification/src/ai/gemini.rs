//! The Gemini-style adapter: the API key travels as a URL query parameter,
//! the endpoint is templated with the model name (any leading `models/`
//! marker stripped), the image travels as bare base64 inline data, and the
//! answer sits under `candidates[0].content.parts[0].text`.

use vstd::prelude::*;
use vstd::string::*;

use crate::ai::{
    handle_json_response, normalize_image, normalize_image_spec, opt_view, text_response_spec,
    AdapterError, OutboundRequest,
};
use crate::text::{
    chars_of_str, json_quoted, push_all_chars, push_json_quoted, push_str_chars, string_from_chars,
    strip_all_prefix_chars, strip_all_prefix_spec, trim_chars, trim_spec,
};

verus! {

/// The model segment placed in the URL: the trimmed model name with any
/// leading `models/` marker stripped.
pub open spec fn model_segment_spec(model: Seq<char>) -> Seq<char> {
    strip_all_prefix_spec(trim_spec(model), "models/"@)
}

/// The templated endpoint: the stable `v1` path segment, the model segment,
/// and the trimmed API key as a query parameter.
pub open spec fn url_spec(api_key: Seq<char>, model: Seq<char>) -> Seq<char> {
    "https://generativelanguage.googleapis.com/v1/models/"@ + model_segment_spec(model)
        + ":generateContent?key="@ + trim_spec(api_key)
}

pub open spec fn image_part_spec(image: Option<Seq<char>>) -> Seq<char> {
    match image {
        None => Seq::<char>::empty(),
        Some(b) => ",{\"inline_data\":{\"mime_type\":\"image/png\",\"data\":"@ + json_quoted(b)
            + "}}"@,
    }
}

/// The request body: one content whose parts start with the text prompt,
/// optionally followed by inline image data carrying bare base64.
pub open spec fn body_spec(prompt: Seq<char>, image: Option<Seq<char>>) -> Seq<char> {
    "{\"contents\":[{\"parts\":[{\"text\":"@ + json_quoted(prompt) + "}"@ + image_part_spec(image)
        + "]}]}"@
}

/// The field path holding the answer text in a successful response.
pub open spec fn answer_pointer_spec() -> Seq<char> {
    "/candidates/0/content/parts/0/text"@
}

/// Translates the generic ask into this backend's wire request.
pub fn build_request(api_key: &str, model: &str, prompt: &str, image_base64: Option<&str>) -> (r:
    OutboundRequest)
    ensures
        r.url@ == url_spec(api_key@, model@),
        r.bearer is None,
        r.body@ == body_spec(prompt@, normalize_image_spec(opt_view(image_base64))),
{
    let key_chars = chars_of_str(api_key);
    let key_trimmed = trim_chars(&key_chars);
    let model_chars = chars_of_str(model);
    let model_trimmed = trim_chars(&model_chars);
    let marker = chars_of_str("models/");
    let segment = strip_all_prefix_chars(&model_trimmed, &marker);

    let mut url: Vec<char> = Vec::new();
    push_str_chars(&mut url, "https://generativelanguage.googleapis.com/v1/models/");
    push_all_chars(&mut url, &segment);
    push_str_chars(&mut url, ":generateContent?key=");
    push_all_chars(&mut url, &key_trimmed);
    proof {
        assert(url@ =~= url_spec(api_key@, model@));
    }

    let normalized = normalize_image(image_base64);
    let mut v: Vec<char> = Vec::new();
    push_str_chars(&mut v, "{\"contents\":[{\"parts\":[{\"text\":");
    let prompt_chars = chars_of_str(prompt);
    push_json_quoted(&mut v, &prompt_chars);
    push_str_chars(&mut v, "}");
    match &normalized {
        None => {},
        Some(b) => {
            push_str_chars(&mut v, ",{\"inline_data\":{\"mime_type\":\"image/png\",\"data\":");
            push_json_quoted(&mut v, b);
            push_str_chars(&mut v, "}}");
        },
    }
    push_str_chars(&mut v, "]}]}");
    proof {
        assert(v@ =~= body_spec(prompt@, normalize_image_spec(opt_view(image_base64))));
    }

    OutboundRequest { url: string_from_chars(&url), bearer: None, body: string_from_chars(&v) }
}

/// Reads this backend's response envelope; a missing answer field becomes the
/// "No response" placeholder.
pub fn handle_response(status: u16, body: &str) -> (r: Result<String, AdapterError>)
    ensures
        text_response_spec(status, body@, answer_pointer_spec(), "No response"@, r),
{
    handle_json_response(status, body, "/candidates/0/content/parts/0/text", "No response")
}

} // verus!
