//! End-to-end checks of the adapter layer: exact outbound bodies and URLs,
//! normalization rules, and response handling for every provider.

use lumina::ai::{deepseek, gemini, ollama, openai};
use lumina::ai::{AdapterError, AiRequest};
use lumina::{build_request_for, credential_from_store, credential_key_for, handle_response_for};

fn request(provider: &str, model: &str, prompt: &str, image: Option<&str>) -> AiRequest {
    AiRequest {
        provider: provider.to_string(),
        model: model.to_string(),
        prompt: prompt.to_string(),
        image_base64: image.map(|s| s.to_string()),
    }
}

#[test]
fn ollama_text_only_body() {
    let req = request("ollama", "llama3", "describe this", None);
    let plan = build_request_for(&req, None).expect("ollama needs no credential");
    assert_eq!(plan.url, "http://localhost:11434/api/generate");
    assert!(plan.bearer.is_none());
    assert_eq!(plan.body, "{\"model\":\"llama3\",\"prompt\":\"describe this\",\"stream\":false}");
}

#[test]
fn ollama_image_body() {
    let req = request("ollama", "llava", "what is this", Some("AAAA"));
    let plan = build_request_for(&req, None).unwrap();
    assert_eq!(
        plan.body,
        "{\"model\":\"llava\",\"prompt\":\"what is this\",\"stream\":false,\"images\":[\"AAAA\"]}"
    );
}

#[test]
fn gemini_model_prefix_and_inline_data() {
    let key = String::from("K");
    let req = request(
        "gemini",
        "models/gemini-1.5-flash",
        "describe this",
        Some("data:image/png;base64,AAAA"),
    );
    let plan = build_request_for(&req, Some(&key)).unwrap();
    assert_eq!(
        plan.url,
        "https://generativelanguage.googleapis.com/v1/models/gemini-1.5-flash:generateContent?key=K"
    );
    assert!(plan.bearer.is_none());
    assert_eq!(
        plan.body,
        "{\"contents\":[{\"parts\":[{\"text\":\"describe this\"},{\"inline_data\":{\"mime_type\":\"image/png\",\"data\":\"AAAA\"}}]}]}"
    );
}

#[test]
fn gemini_bare_model_name_is_unchanged() {
    let plan = gemini::build_request("K", "gemini-1.5-flash", "p", None);
    assert_eq!(
        plan.url,
        "https://generativelanguage.googleapis.com/v1/models/gemini-1.5-flash:generateContent?key=K"
    );
}

#[test]
fn openai_body_with_image() {
    let plan = openai::build_request("sk-test", "gpt-4o-mini", "hi", Some("AAAA"));
    assert_eq!(plan.url, "https://api.openai.com/v1/chat/completions");
    assert_eq!(plan.bearer.as_deref(), Some("sk-test"));
    assert_eq!(
        plan.body,
        "{\"model\":\"gpt-4o-mini\",\"messages\":[{\"role\":\"user\",\"content\":[{\"type\":\"text\",\"text\":\"hi\"},{\"type\":\"image_url\",\"image_url\":{\"url\":\"data:image/png;base64,AAAA\"}}]}]}"
    );
}

#[test]
fn deepseek_matches_openai_shape() {
    let plan = deepseek::build_request("k", "deepseek-chat", "hi", None);
    assert_eq!(plan.url, "https://api.deepseek.com/v1/chat/completions");
    assert_eq!(plan.bearer.as_deref(), Some("k"));
    assert_eq!(
        plan.body,
        "{\"model\":\"deepseek-chat\",\"messages\":[{\"role\":\"user\",\"content\":[{\"type\":\"text\",\"text\":\"hi\"}]}]}"
    );
}

#[test]
fn credential_and_model_are_trimmed() {
    let plan = openai::build_request("  sk  ", " gpt-4o ", "p", None);
    assert_eq!(plan.bearer.as_deref(), Some("sk"));
    assert!(plan.body.starts_with("{\"model\":\"gpt-4o\","));
}

#[test]
fn blank_image_is_no_image() {
    let with_blank = openai::build_request("k", "m", "p", Some("   \t\n"));
    let without = openai::build_request("k", "m", "p", None);
    assert_eq!(with_blank.body, without.body);
    let ollama_blank = ollama::build_request("m", "p", Some("  "));
    let ollama_none = ollama::build_request("m", "p", None);
    assert_eq!(ollama_blank.body, ollama_none.body);
}

#[test]
fn unicode_whitespace_image_is_no_image() {
    // line tabulation, next line, no-break space, em space, ideographic space
    let blank = "\u{b}\u{85}\u{a0}\u{2003}\u{3000}";
    assert!(blank.trim().is_empty());
    let with_blank = ollama::build_request("m", "p", Some(blank));
    let without = ollama::build_request("m", "p", None);
    assert_eq!(with_blank.body, without.body);
    let openai_blank = openai::build_request("k", "m", "p", Some("\u{2028}\u{202f}"));
    let openai_none = openai::build_request("k", "m", "p", None);
    assert_eq!(openai_blank.body, openai_none.body);
}

#[test]
fn unicode_whitespace_credential_is_not_configured() {
    let blank = String::from("\u{b}\u{1680}\u{205f}");
    assert!(blank.trim().is_empty());
    match credential_from_store("openai_api_key", Some(&blank)) {
        Err(AdapterError::Config(m)) => assert_eq!(m, "API key not set: openai_api_key"),
        other => panic!("expected a config error, got {:?}", other),
    }
}

#[test]
fn unicode_whitespace_is_trimmed_from_model_and_key() {
    let plan = openai::build_request("\u{a0}sk\u{2009}", "\u{3000}gpt\u{85}", "p", None);
    assert_eq!(plan.bearer.as_deref(), Some("sk"));
    assert!(plan.body.starts_with("{\"model\":\"gpt\","));
}

#[test]
fn data_uri_wrapping_is_idempotent() {
    let wrapped = deepseek::build_request("k", "m", "p", Some("data:image/png;base64,AAAA"));
    let bare = deepseek::build_request("k", "m", "p", Some("AAAA"));
    assert_eq!(wrapped.body, bare.body);
    let gem_wrapped = gemini::build_request("k", "m", "p", Some(" data:image/png;base64,AAAA "));
    let gem_bare = gemini::build_request("k", "m", "p", Some("AAAA"));
    assert_eq!(gem_wrapped.body, gem_bare.body);
}

#[test]
fn prompt_is_json_escaped() {
    let plan = ollama::build_request("m", "say \"hi\"\nplease", None);
    assert_eq!(
        plan.body,
        "{\"model\":\"m\",\"prompt\":\"say \\\"hi\\\"\\nplease\",\"stream\":false}"
    );
}

#[test]
fn control_characters_are_escaped() {
    let plan = ollama::build_request("m", "a\u{1}b", None);
    assert_eq!(plan.body, "{\"model\":\"m\",\"prompt\":\"a\\u0001b\",\"stream\":false}");
}

#[test]
fn unknown_provider_is_immediate_error() {
    let req = request("anthropic", "m", "p", None);
    match build_request_for(&req, None) {
        Err(AdapterError::Config(m)) => assert_eq!(m, "Unknown provider"),
        other => panic!("expected a config error, got {:?}", other),
    }
    match credential_key_for("anthropic") {
        Err(AdapterError::Config(m)) => assert_eq!(m, "Unknown provider"),
        other => panic!("expected a config error, got {:?}", other),
    }
}

#[test]
fn credential_keys_per_provider() {
    assert_eq!(credential_key_for("openai").unwrap().as_deref(), Some("openai_api_key"));
    assert_eq!(credential_key_for("gemini").unwrap().as_deref(), Some("gemini_api_key"));
    assert_eq!(credential_key_for("deepseek").unwrap().as_deref(), Some("deepseek_api_key"));
    assert_eq!(credential_key_for("ollama").unwrap(), None);
}

#[test]
fn missing_credential_is_reported_with_its_key() {
    let req = request("openai", "m", "p", None);
    match build_request_for(&req, None) {
        Err(AdapterError::Config(m)) => assert_eq!(m, "API key not set: openai_api_key"),
        other => panic!("expected a config error, got {:?}", other),
    }
}

#[test]
fn blank_stored_credential_is_not_configured() {
    let blank = String::from("   ");
    match credential_from_store("gemini_api_key", Some(&blank)) {
        Err(AdapterError::Config(m)) => assert_eq!(m, "API key not set: gemini_api_key"),
        other => panic!("expected a config error, got {:?}", other),
    }
    match credential_from_store("gemini_api_key", None) {
        Err(AdapterError::Config(m)) => assert_eq!(m, "API key not set: gemini_api_key"),
        other => panic!("expected a config error, got {:?}", other),
    }
    let set = String::from(" g-key ");
    assert_eq!(credential_from_store("gemini_api_key", Some(&set)).unwrap(), " g-key ");
}

#[test]
fn http_error_carries_status_and_body() {
    let body = "{\"error\":\"quota\"}";
    match openai::handle_response(429, body) {
        Err(AdapterError::HttpStatus { code, body: b }) => {
            assert_eq!(code, 429);
            assert_eq!(b, body);
            let msg = AdapterError::HttpStatus { code, body: b }.message();
            assert_eq!(msg, "HTTP 429: {\"error\":\"quota\"}");
        },
        other => panic!("expected an http-status error, got {:?}", other),
    }
    assert!(ollama::handle_response(500, "oops").is_err());
}

#[test]
fn missing_answer_field_gives_placeholder() {
    assert_eq!(openai::handle_response(200, "{}").unwrap(), "No response");
    assert_eq!(deepseek::handle_response(200, "{\"choices\":[]}").unwrap(), "No response");
    assert_eq!(gemini::handle_response(200, "not json at all").unwrap(), "No response");
    assert_eq!(ollama::handle_response(200, "{}").unwrap(), "");
}

#[test]
fn answer_field_is_extracted() {
    let openai_body = "{\"choices\":[{\"message\":{\"content\":\"hello there\"}}]}";
    assert_eq!(openai::handle_response(200, openai_body).unwrap(), "hello there");
    let gemini_body = "{\"candidates\":[{\"content\":{\"parts\":[{\"text\":\"yo\"}]}}]}";
    assert_eq!(gemini::handle_response(200, gemini_body).unwrap(), "yo");
    let ollama_body = "{\"response\":\"ok then\"}";
    assert_eq!(ollama::handle_response(200, ollama_body).unwrap(), "ok then");
    assert_eq!(handle_response_for("deepseek", 200, openai_body).unwrap(), "hello there");
}

#[test]
fn handle_response_for_unknown_provider() {
    match handle_response_for("anthropic", 200, "{}") {
        Err(AdapterError::Config(m)) => assert_eq!(m, "Unknown provider"),
        other => panic!("expected a config error, got {:?}", other),
    }
}

#[test]
fn transport_error_message_is_the_description() {
    let e = AdapterError::Transport(String::from("connection refused"));
    assert_eq!(e.message(), "connection refused");
}
