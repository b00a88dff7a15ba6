use voice_input::llm_client::{
    build_header_pairs, chat_completions_url, extract_chat_content, extract_model_ids,
    models_url, ModelEntry,
};

fn header<'a>(headers: &'a [(String, String)], name: &str) -> Option<&'a str> {
    headers
        .iter()
        .find(|(n, _)| n == name)
        .map(|(_, v)| v.as_str())
}

// ── Header Building ─────────────────────────────────────────────

#[test]
fn test_build_headers_openai_with_api_key() {
    let headers = build_header_pairs("openai", "sk-test123");

    assert_eq!(header(&headers, "content-type").unwrap(), "application/json");
    assert_eq!(header(&headers, "authorization").unwrap(), "Bearer sk-test123");
    assert!(header(&headers, "x-api-key").is_none());
}

#[test]
fn test_build_headers_anthropic_uses_x_api_key() {
    let headers = build_header_pairs("anthropic", "sk-ant-test");

    assert_eq!(header(&headers, "x-api-key").unwrap(), "sk-ant-test");
    assert_eq!(header(&headers, "anthropic-version").unwrap(), "2023-06-01");
    assert!(header(&headers, "authorization").is_none());
}

#[test]
fn test_build_headers_no_api_key() {
    let headers = build_header_pairs("custom", "");

    assert!(header(&headers, "authorization").is_none());
    assert!(header(&headers, "x-api-key").is_none());
}

#[test]
fn test_build_headers_common_fields() {
    let headers = build_header_pairs("openai", "key");

    assert!(header(&headers, "referer").is_some());
    assert!(header(&headers, "user-agent").is_some());
    assert!(header(&headers, "x-title").is_some());
}

// ── URL Construction ────────────────────────────────────────────

#[test]
fn test_chat_completion_url_no_trailing_slash() {
    let url = chat_completions_url("https://api.openai.com/v1");
    assert_eq!(url, "https://api.openai.com/v1/chat/completions");
}

#[test]
fn test_chat_completion_url_with_trailing_slash() {
    let url = chat_completions_url("https://api.openai.com/v1/");
    assert_eq!(url, "https://api.openai.com/v1/chat/completions");
}

#[test]
fn test_models_url() {
    let url = models_url("https://api.groq.com/openai/v1/");
    assert_eq!(url, "https://api.groq.com/openai/v1/models");
}

// ── Response Extraction ─────────────────────────────────────────

#[test]
fn test_extract_content_first_choice() {
    let choices = vec![Some("Hello world".to_string()), Some("ignored".to_string())];
    assert_eq!(extract_chat_content(&choices).as_deref(), Some("Hello world"));
}

#[test]
fn test_extract_content_empty_choices() {
    let choices: Vec<Option<String>> = Vec::new();
    assert!(extract_chat_content(&choices).is_none());
}

#[test]
fn test_extract_content_null_content() {
    let choices = vec![None];
    assert!(extract_chat_content(&choices).is_none());
}

#[test]
fn test_extract_model_ids_prefers_id_over_name() {
    let entries = vec![
        ModelEntry { id: Some("gpt-4".to_string()), name: Some("GPT-4".to_string()) },
        ModelEntry { id: None, name: Some("llama".to_string()) },
        ModelEntry { id: None, name: None },
    ];
    let ids = extract_model_ids(&entries);
    assert_eq!(ids, vec!["gpt-4".to_string(), "llama".to_string()]);
}
