//! The generic `ask` contract shared by every backend adapter: the request
//! type, the structured adapter error, image-payload normalization, the
//! chat-completions body shared by two of the backends, and the uniform
//! handling of each backend's JSON response envelope.

use vstd::prelude::*;
use vstd::string::*;

use crate::text::{
    chars_of_str, dec_spec, json_quoted, push_all_chars, push_json_quoted, push_str_chars,
    push_u16_dec, string_from_chars, strip_prefix_chars, strip_prefix_spec, trim_chars, trim_spec,
};

pub mod deepseek;
pub mod gemini;
pub mod ollama;
pub mod openai;

verus! {

/// One request against some backend: which provider, which model, the text
/// prompt, and an optional base64-encoded PNG image.
#[derive(Debug, Clone)]
pub struct AiRequest {
    pub provider: String,
    pub model: String,
    pub prompt: String,
    pub image_base64: Option<String>,
}

/// Why an `ask` call failed.
#[derive(Debug, Clone)]
pub enum AdapterError {
    /// A configuration problem found before any network call: an unknown
    /// provider name, or a credential that is missing or blank.
    Config(String),
    /// The transport layer failed; the field carries the underlying
    /// description.
    Transport(String),
    /// The backend answered with a non-success HTTP status; the raw response
    /// body is kept for diagnostics.
    HttpStatus { code: u16, body: String },
}

pub open spec fn adapter_error_message_spec(e: AdapterError) -> Seq<char> {
    match e {
        AdapterError::Config(m) => m@,
        AdapterError::Transport(m) => m@,
        AdapterError::HttpStatus { code, body } => "HTTP "@ + dec_spec(code as int) + ": "@
            + body@,
    }
}

impl AdapterError {
    /// The human-readable rendering handed to the interface boundary.
    pub fn message(&self) -> (r: String)
        ensures
            r@ == adapter_error_message_spec(*self),
    {
        match self {
            AdapterError::Config(m) => m.clone(),
            AdapterError::Transport(m) => m.clone(),
            AdapterError::HttpStatus { code, body } => {
                let mut v: Vec<char> = Vec::new();
                push_str_chars(&mut v, "HTTP ");
                push_u16_dec(&mut v, *code);
                push_str_chars(&mut v, ": ");
                push_str_chars(&mut v, body.as_str());
                proof {
                    assert(v@ =~= adapter_error_message_spec(*self));
                }
                string_from_chars(&v)
            },
        }
    }
}

/// The backends this crate can address.
#[derive(Debug, Clone, Copy, PartialEq, Eq, Structural)]
pub enum Provider {
    OpenAi,
    Gemini,
    DeepSeek,
    Ollama,
}

/// One planned HTTP exchange: where to POST, the bearer token if the protocol
/// authenticates through a header, and the JSON body.
#[derive(Debug, Clone)]
pub struct OutboundRequest {
    pub url: String,
    pub bearer: Option<String>,
    pub body: String,
}

/// The marker that labels an image payload as inline base64-encoded PNG.
pub open spec fn data_uri_prefix() -> Seq<char> {
    "data:image/png;base64,"@
}

pub open spec fn opt_view(s: Option<&str>) -> Option<Seq<char>> {
    match s {
        None => None,
        Some(t) => Some(t@),
    }
}

pub open spec fn opt_string_view(s: Option<String>) -> Option<Seq<char>> {
    match s {
        None => None,
        Some(t) => Some(t@),
    }
}

/// The shared normalization of an image input: surrounding whitespace is
/// dropped, a blank input counts as no image at all, and a data-URI marker is
/// stripped so that a wrapped payload and a bare one are the same payload.
pub open spec fn normalize_image_spec(img: Option<Seq<char>>) -> Option<Seq<char>> {
    match img {
        None => None,
        Some(s) => {
            let t = trim_spec(s);
            if t.len() == 0 {
                None
            } else {
                Some(strip_prefix_spec(t, data_uri_prefix()))
            }
        },
    }
}

/// Applies the shared image normalization; the result is the bare base64
/// payload to place on the wire, or nothing.
pub fn normalize_image(img: Option<&str>) -> (r: Option<Vec<char>>)
    ensures
        match r {
            None => normalize_image_spec(opt_view(img)) is None,
            Some(v) => normalize_image_spec(opt_view(img)) == Some(v@),
        },
{
    match img {
        None => None,
        Some(s) => {
            let raw = chars_of_str(s);
            let trimmed = trim_chars(&raw);
            if trimmed.len() == 0 {
                None
            } else {
                let prefix = chars_of_str("data:image/png;base64,");
                Some(strip_prefix_chars(&trimmed, &prefix))
            }
        },
    }
}

/// The chat-completions body shared by the OpenAI-style and DeepSeek-style
/// backends: a single user message whose content is a text part, optionally
/// followed by an image part carrying a data URI.
pub open spec fn chat_body_spec(model: Seq<char>, prompt: Seq<char>, image: Option<Seq<char>>) -> Seq<
    char,
> {
    "{\"model\":"@ + json_quoted(model)
        + ",\"messages\":[{\"role\":\"user\",\"content\":[{\"type\":\"text\",\"text\":"@
        + json_quoted(prompt) + "}"@ + chat_image_part_spec(image) + "]}]}"@
}

pub open spec fn chat_image_part_spec(image: Option<Seq<char>>) -> Seq<char> {
    match image {
        None => Seq::<char>::empty(),
        Some(b) => ",{\"type\":\"image_url\",\"image_url\":{\"url\":"@ + json_quoted(
            data_uri_prefix() + b,
        ) + "}}"@,
    }
}

/// Builds the shared chat-completions body; the model arrives already
/// normalized, the image is normalized here.
pub fn build_chat_body(model: &Vec<char>, prompt: &str, image: Option<&str>) -> (r: String)
    ensures
        r@ == chat_body_spec(model@, prompt@, normalize_image_spec(opt_view(image))),
{
    let normalized = normalize_image(image);
    let mut v: Vec<char> = Vec::new();
    push_str_chars(&mut v, "{\"model\":");
    push_json_quoted(&mut v, model);
    push_str_chars(
        &mut v,
        ",\"messages\":[{\"role\":\"user\",\"content\":[{\"type\":\"text\",\"text\":",
    );
    let prompt_chars = chars_of_str(prompt);
    push_json_quoted(&mut v, &prompt_chars);
    push_str_chars(&mut v, "}");
    match &normalized {
        None => {},
        Some(b) => {
            push_str_chars(&mut v, ",{\"type\":\"image_url\",\"image_url\":{\"url\":");
            let mut uri = chars_of_str("data:image/png;base64,");
            push_all_chars(&mut uri, b);
            push_json_quoted(&mut v, &uri);
            push_str_chars(&mut v, "}}");
        },
    }
    push_str_chars(&mut v, "]}]}");
    proof {
        assert(v@ =~= chat_body_spec(model@, prompt@, normalize_image_spec(opt_view(image))));
    }
    string_from_chars(&v)
}

/// The string value found at a JSON pointer in a JSON document, when the
/// document parses and that value is a string. A pure function of the two
/// arguments.
pub uninterp spec fn json_text_at(body: Seq<char>, pointer: Seq<char>) -> Option<Seq<char>>;

/// Relies on `serde_json::from_str`, `serde_json::Value::pointer` (RFC 6901
/// lookup) and `serde_json::Value::as_str`: the string at `pointer` inside
/// `body`, if `body` parses as JSON and the addressed value is a string.
/// The result depends on the two arguments alone.
#[verifier::external_body]
fn json_string_at(body: &str, pointer: &str) -> (r: Option<String>)
    ensures
        match r {
            Some(s) => json_text_at(body@, pointer@) == Some(s@),
            None => json_text_at(body@, pointer@) is None,
        },
{
    match serde_json::from_str::<serde_json::Value>(body) {
        Ok(v) => v.pointer(pointer).and_then(|x| x.as_str()).map(|s| s.to_string()),
        Err(_) => None,
    }
}

/// What every adapter returns for a completed HTTP exchange: a non-success
/// status becomes an error carrying the status code and the raw body; a
/// success status yields the text at the adapter's field path, or the
/// adapter's placeholder when that field is absent.
pub open spec fn text_response_spec(
    status: u16,
    body: Seq<char>,
    pointer: Seq<char>,
    placeholder: Seq<char>,
    r: Result<String, AdapterError>,
) -> bool {
    if 200 <= status && status < 300 {
        match json_text_at(body, pointer) {
            Some(t) => r matches Ok(s) && s@ == t,
            None => r matches Ok(s) && s@ == placeholder,
        }
    } else {
        r matches Err(AdapterError::HttpStatus { code, body: b }) && code == status && b@ == body
    }
}

/// The uniform response handling shared by all adapters.
pub fn handle_json_response(status: u16, body: &str, pointer: &str, placeholder: &str) -> (r:
    Result<String, AdapterError>)
    ensures
        text_response_spec(status, body@, pointer@, placeholder@, r),
{
    if 200 <= status && status < 300 {
        match json_string_at(body, pointer) {
            Some(s) => Ok(s),
            None => Ok(String::from_str(placeholder)),
        }
    } else {
        Err(AdapterError::HttpStatus { code: status, body: String::from_str(body) })
    }
}

} // verus!
