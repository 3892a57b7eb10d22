//! Core logic of a screen-capture-and-ask utility: building the outbound
//! request for each supported chat-completion backend, reading each backend's
//! response envelope, and deciding the region-capture state machine. All
//! network, subprocess and clipboard work happens outside this crate; this
//! library turns plain values into plain values, with contracts.

use vstd::prelude::*;
use vstd::string::*;

pub mod ai;
pub mod capture;
pub mod text;

use crate::ai::{deepseek, gemini, ollama, openai};
use crate::ai::{
    chat_body_spec, data_uri_prefix, normalize_image_spec, opt_string_view, text_response_spec,
    AdapterError, AiRequest, OutboundRequest, Provider,
};
use crate::text::{
    chars_of_str, is_space, push_str_chars, starts_with_spec, str_eq, string_from_chars,
    strip_all_prefix_spec, strip_prefix_spec, trim_chars, trim_spec,
};

verus! {

/// The provider name written in a request, as an adapter choice.
pub open spec fn provider_of_spec(name: Seq<char>) -> Option<Provider> {
    if name == "openai"@ {
        Some(Provider::OpenAi)
    } else if name == "gemini"@ {
        Some(Provider::Gemini)
    } else if name == "deepseek"@ {
        Some(Provider::DeepSeek)
    } else if name == "ollama"@ {
        Some(Provider::Ollama)
    } else {
        None
    }
}

/// Resolves a provider name; an unrecognized name selects nothing.
pub fn parse_provider(name: &str) -> (r: Option<Provider>)
    ensures
        r == provider_of_spec(name@),
{
    if str_eq(name, "openai") {
        Some(Provider::OpenAi)
    } else if str_eq(name, "gemini") {
        Some(Provider::Gemini)
    } else if str_eq(name, "deepseek") {
        Some(Provider::DeepSeek)
    } else if str_eq(name, "ollama") {
        Some(Provider::Ollama)
    } else {
        None
    }
}

/// The settings key holding each provider's credential; the local daemon
/// needs none.
pub open spec fn credential_key_spec(p: Provider) -> Option<Seq<char>> {
    match p {
        Provider::OpenAi => Some("openai_api_key"@),
        Provider::Gemini => Some("gemini_api_key"@),
        Provider::DeepSeek => Some("deepseek_api_key"@),
        Provider::Ollama => None,
    }
}

/// Which settings key must be fetched before asking this provider: the key
/// name, no key at all for the local daemon, or the unknown-provider error.
pub fn credential_key_for(provider: &str) -> (r: Result<Option<String>, AdapterError>)
    ensures
        (match provider_of_spec(provider@) {
            None => r matches Err(AdapterError::Config(m)) && m@ == "Unknown provider"@,
            Some(p) => r matches Ok(k) && opt_string_view(k) == credential_key_spec(p),
        }),
{
    match parse_provider(provider) {
        None => Err(AdapterError::Config(String::from_str("Unknown provider"))),
        Some(Provider::OpenAi) => Ok(Some(String::from_str("openai_api_key"))),
        Some(Provider::Gemini) => Ok(Some(String::from_str("gemini_api_key"))),
        Some(Provider::DeepSeek) => Ok(Some(String::from_str("deepseek_api_key"))),
        Some(Provider::Ollama) => Ok(None),
    }
}

/// The error text for a credential that is absent or blank.
pub open spec fn missing_key_message_spec(key_name: Seq<char>) -> Seq<char> {
    "API key not set: "@ + key_name
}

fn missing_key_message(key_name: &str) -> (r: String)
    ensures
        r@ == missing_key_message_spec(key_name@),
{
    let mut v: Vec<char> = Vec::new();
    push_str_chars(&mut v, "API key not set: ");
    push_str_chars(&mut v, key_name);
    string_from_chars(&v)
}

/// The decision over a value fetched from the settings store: a present,
/// non-blank value is the credential, as stored; anything else means the key
/// is not configured.
pub fn credential_from_store(key_name: &str, value: Option<&String>) -> (r: Result<
    String,
    AdapterError,
>)
    ensures
        (match value {
            Some(v) => {
                if trim_spec(v@).len() > 0 {
                    r matches Ok(s) && s@ == v@
                } else {
                    r matches Err(AdapterError::Config(m)) && m@ == missing_key_message_spec(
                        key_name@,
                    )
                }
            },
            None => r matches Err(AdapterError::Config(m)) && m@ == missing_key_message_spec(
                key_name@,
            ),
        }),
{
    match value {
        Some(v) => {
            let chars = chars_of_str(v.as_str());
            let trimmed = trim_chars(&chars);
            if trimmed.len() > 0 {
                Ok(v.clone())
            } else {
                Err(AdapterError::Config(missing_key_message(key_name)))
            }
        },
        None => Err(AdapterError::Config(missing_key_message(key_name))),
    }
}

pub open spec fn cred_view(credential: Option<&String>) -> Seq<char> {
    match credential {
        None => Seq::<char>::empty(),
        Some(c) => c@,
    }
}

/// A planned exchange as a mathematical value: URL, bearer token, body.
pub open spec fn plan_view(plan: OutboundRequest) -> (Seq<char>, Option<Seq<char>>, Seq<char>) {
    (plan.url@, opt_string_view(plan.bearer), plan.body@)
}

/// The exchange each adapter plans, over the shared normalization rules.
pub open spec fn plan_spec(
    p: Provider,
    cred: Seq<char>,
    model: Seq<char>,
    prompt: Seq<char>,
    image: Option<Seq<char>>,
) -> (Seq<char>, Option<Seq<char>>, Seq<char>) {
    match p {
        Provider::OpenAi => (
            openai::endpoint_spec(),
            Some(trim_spec(cred)),
            chat_body_spec(trim_spec(model), prompt, normalize_image_spec(image)),
        ),
        Provider::DeepSeek => (
            deepseek::endpoint_spec(),
            Some(trim_spec(cred)),
            chat_body_spec(trim_spec(model), prompt, normalize_image_spec(image)),
        ),
        Provider::Gemini => (
            gemini::url_spec(cred, model),
            None,
            gemini::body_spec(prompt, normalize_image_spec(image)),
        ),
        Provider::Ollama => (
            ollama::endpoint_spec(),
            None,
            ollama::body_spec(trim_spec(model), prompt, normalize_image_spec(image)),
        ),
    }
}

/// Plans the outbound exchange for one request: resolves the provider name,
/// checks that a credential is at hand where one is required, and hands the
/// pieces to the matching adapter. Makes no network call.
pub fn build_request_for(req: &AiRequest, credential: Option<&String>) -> (r: Result<
    OutboundRequest,
    AdapterError,
>)
    ensures
        (match provider_of_spec(req.provider@) {
            None => r matches Err(AdapterError::Config(m)) && m@ == "Unknown provider"@,
            Some(p) => match (credential_key_spec(p), credential) {
                (Some(k), None) => r matches Err(AdapterError::Config(m)) && m@
                    == missing_key_message_spec(k),
                _ => r matches Ok(plan) && plan_view(plan) == plan_spec(
                    p,
                    cred_view(credential),
                    req.model@,
                    req.prompt@,
                    opt_string_view(req.image_base64),
                ),
            },
        }),
{
    let image: Option<&str> = match &req.image_base64 {
        Some(s) => Some(s.as_str()),
        None => None,
    };
    match parse_provider(req.provider.as_str()) {
        None => Err(AdapterError::Config(String::from_str("Unknown provider"))),
        Some(Provider::OpenAi) => match credential {
            None => Err(AdapterError::Config(missing_key_message("openai_api_key"))),
            Some(c) => Ok(
                openai::build_request(c.as_str(), req.model.as_str(), req.prompt.as_str(), image),
            ),
        },
        Some(Provider::Gemini) => match credential {
            None => Err(AdapterError::Config(missing_key_message("gemini_api_key"))),
            Some(c) => Ok(
                gemini::build_request(c.as_str(), req.model.as_str(), req.prompt.as_str(), image),
            ),
        },
        Some(Provider::DeepSeek) => match credential {
            None => Err(AdapterError::Config(missing_key_message("deepseek_api_key"))),
            Some(c) => Ok(
                deepseek::build_request(c.as_str(), req.model.as_str(), req.prompt.as_str(), image),
            ),
        },
        Some(Provider::Ollama) => Ok(
            ollama::build_request(req.model.as_str(), req.prompt.as_str(), image),
        ),
    }
}

/// Where each adapter finds the answer text in a successful response.
pub open spec fn answer_pointer_for_spec(p: Provider) -> Seq<char> {
    match p {
        Provider::OpenAi => openai::answer_pointer_spec(),
        Provider::Gemini => gemini::answer_pointer_spec(),
        Provider::DeepSeek => deepseek::answer_pointer_spec(),
        Provider::Ollama => ollama::answer_pointer_spec(),
    }
}

/// What stands in for a missing answer field: the cloud adapters say
/// "No response", the local daemon the empty string.
pub open spec fn placeholder_for_spec(p: Provider) -> Seq<char> {
    match p {
        Provider::Ollama => ""@,
        _ => "No response"@,
    }
}

/// Reads a completed exchange's response for the named provider.
pub fn handle_response_for(provider: &str, status: u16, body: &str) -> (r: Result<
    String,
    AdapterError,
>)
    ensures
        (match provider_of_spec(provider@) {
            None => r matches Err(AdapterError::Config(m)) && m@ == "Unknown provider"@,
            Some(p) => text_response_spec(
                status,
                body@,
                answer_pointer_for_spec(p),
                placeholder_for_spec(p),
                r,
            ),
        }),
{
    match parse_provider(provider) {
        None => Err(AdapterError::Config(String::from_str("Unknown provider"))),
        Some(Provider::OpenAi) => openai::handle_response(status, body),
        Some(Provider::Gemini) => gemini::handle_response(status, body),
        Some(Provider::DeepSeek) => deepseek::handle_response(status, body),
        Some(Provider::Ollama) => ollama::handle_response(status, body),
    }
}

/// A blank image input is the same as no image at all: every adapter plans
/// the identical request, with no image field or part in the body.
pub proof fn lemma_blank_image_is_no_image(
    p: Provider,
    cred: Seq<char>,
    model: Seq<char>,
    prompt: Seq<char>,
    img: Seq<char>,
)
    requires
        trim_spec(img).len() == 0,
    ensures
        plan_spec(p, cred, model, prompt, Some(img)) == plan_spec(p, cred, model, prompt, None),
{
    assert(normalize_image_spec(Some(img)) == normalize_image_spec(None::<Seq<char>>));
}

/// Supplying the image payload already wrapped in the data-URI marker and
/// supplying it bare plans byte-identical requests, for every adapter. The
/// payload here is as it travels: non-blank, carrying no surrounding
/// whitespace, and not itself beginning with the marker.
pub proof fn lemma_data_uri_wrapping_ignored(
    p: Provider,
    cred: Seq<char>,
    model: Seq<char>,
    prompt: Seq<char>,
    payload: Seq<char>,
)
    requires
        payload.len() > 0,
        trim_spec(payload) == payload,
        !starts_with_spec(payload, data_uri_prefix()),
    ensures
        plan_spec(p, cred, model, prompt, Some(data_uri_prefix() + payload)) == plan_spec(
            p,
            cred,
            model,
            prompt,
            Some(payload),
        ),
{
    reveal_strlit("data:image/png;base64,");
    let pre = data_uri_prefix();
    assert(pre[0] == 'd');
    assert(!is_space('d'));
    crate::text::lemma_trim_fixed_point_ends(payload);
    crate::text::lemma_trim_concat_clean(pre, payload);
    let wrapped = pre + payload;
    assert(trim_spec(wrapped) == wrapped);
    assert(wrapped.subrange(0, pre.len() as int) =~= pre);
    assert(starts_with_spec(wrapped, pre));
    assert(wrapped.skip(pre.len() as int) =~= payload);
    assert(strip_prefix_spec(wrapped, pre) == payload);
    assert(strip_prefix_spec(payload, pre) == payload);
    assert(normalize_image_spec(Some(wrapped)) == normalize_image_spec(Some(payload)));
}

/// A model name written `models/foo` and one written `foo` address the same
/// Gemini model: the planned request is identical. The name arrives as
/// written by a caller, free of surrounding whitespace.
pub proof fn lemma_gemini_model_prefix_stripped(
    cred: Seq<char>,
    model: Seq<char>,
    prompt: Seq<char>,
    image: Option<Seq<char>>,
)
    requires
        trim_spec(model) == model,
    ensures
        plan_spec(Provider::Gemini, cred, "models/"@ + model, prompt, image) == plan_spec(
            Provider::Gemini,
            cred,
            model,
            prompt,
            image,
        ),
{
    reveal_strlit("models/");
    let pre = "models/"@;
    assert(pre.len() == 7);
    assert(pre[0] == 'm');
    assert(pre[6] == '/');
    assert(!is_space('m'));
    assert(!is_space('/'));
    let wrapped = pre + model;
    if model.len() == 0 {
        assert(wrapped =~= pre);
        crate::text::lemma_trim_noop(pre);
    } else {
        crate::text::lemma_trim_fixed_point_ends(model);
        crate::text::lemma_trim_concat_clean(pre, model);
    }
    assert(trim_spec(wrapped) == wrapped);
    assert(wrapped.subrange(0, pre.len() as int) =~= pre);
    assert(starts_with_spec(wrapped, pre));
    assert(wrapped.skip(pre.len() as int) =~= model);
    assert(strip_all_prefix_spec(wrapped, pre) == strip_all_prefix_spec(model, pre));
    assert(gemini::model_segment_spec(wrapped) == gemini::model_segment_spec(model));
}

} // verus!
