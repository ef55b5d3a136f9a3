use model_provider::keyed_map::StringMap;
use model_provider::provider::{
    AuthMode, CodexAuth, ModelProviderInfo, ProviderError, RequestPlan, WireApi,
};
use model_provider::registry::{create_oss_provider, create_oss_provider_with_base_url};
use std::time::Duration;

fn provider(wire_api: WireApi, base_url: Option<&str>) -> ModelProviderInfo {
    ModelProviderInfo {
        name: "Example".to_string(),
        base_url: base_url.map(|b| b.to_string()),
        env_key: None,
        env_key_instructions: None,
        experimental_bearer_token: None,
        wire_api,
        query_params: None,
        http_headers: None,
        env_http_headers: None,
        request_max_retries: None,
        stream_max_retries: None,
        stream_idle_timeout_ms: None,
        requires_openai_auth: false,
    }
}

fn map_of(pairs: &[(&str, &str)]) -> StringMap {
    let mut m = StringMap::new();
    for (k, v) in pairs {
        m.insert(k.to_string(), v.to_string());
    }
    m
}

fn empty_plan() -> RequestPlan {
    RequestPlan { url: String::new(), headers: Vec::new(), auth: None }
}

#[test]
fn chat_url_ends_with_path_and_query() {
    let mut p = provider(WireApi::Chat, Some("https://example.com/v1"));
    p.query_params = Some(map_of(&[("api-version", "2025-04-01-preview")]));
    assert_eq!(
        p.get_full_url(&None),
        "https://example.com/v1/chat/completions?api-version=2025-04-01-preview"
    );
}

#[test]
fn query_string_joins_pairs_without_encoding() {
    let mut p = provider(WireApi::Chat, None);
    assert_eq!(p.get_query_string(), "");
    p.query_params = Some(StringMap::new());
    assert_eq!(p.get_query_string(), "");
    p.query_params = Some(map_of(&[("a", "1"), ("b", "x y")]));
    assert_eq!(p.get_query_string(), "?a=1&b=x y");
}

#[test]
fn responses_url_default_hosts() {
    let p = provider(WireApi::Responses, None);
    assert_eq!(p.get_full_url(&None), "https://api.openai.com/v1/responses");
    let key = Some(CodexAuth::from_api_key("sk"));
    assert_eq!(p.get_full_url(&key), "https://api.openai.com/v1/responses");
    let managed = Some(CodexAuth { mode: AuthMode::ChatGPT, api_key: None });
    assert_eq!(
        p.get_full_url(&managed),
        "https://chatgpt.com/backend-api/codex/responses"
    );
}

#[test]
fn base_url_overrides_default_host() {
    let p = provider(WireApi::AnthropicMessages, Some("http://proxy"));
    let managed = Some(CodexAuth { mode: AuthMode::ChatGPT, api_key: None });
    assert_eq!(p.get_full_url(&managed), "http://proxy/messages");
}

#[test]
fn azure_requires_responses_protocol() {
    let p = provider(WireApi::Chat, Some("https://foo.openai.azure.com/openai"));
    assert!(!p.is_azure_responses_endpoint());
    let mut named = provider(WireApi::Responses, None);
    named.name = "AZURE".to_string();
    assert!(named.is_azure_responses_endpoint());
    let upper = provider(WireApi::Responses, Some("https://FOO.OPENAI.AZURE.COM/openai"));
    assert!(upper.is_azure_responses_endpoint());
}

#[test]
fn api_key_missing_variable_is_an_error() {
    let mut p = provider(WireApi::Chat, None);
    p.env_key = Some("X".to_string());
    p.env_key_instructions = Some("set X".to_string());
    match p.api_key(&StringMap::new()) {
        Err(ProviderError::EnvVar(e)) => {
            assert_eq!(e.var, "X");
            assert_eq!(e.instructions, Some("set X".to_string()));
        }
        _ => panic!("expected a missing variable error"),
    }
    match p.api_key(&map_of(&[("X", " \t")])) {
        Err(ProviderError::EnvVar(e)) => assert_eq!(e.var, "X"),
        _ => panic!("expected a missing variable error"),
    }
}

#[test]
fn api_key_found_or_not_declared() {
    let mut p = provider(WireApi::Chat, None);
    assert!(matches!(p.api_key(&StringMap::new()), Ok(None)));
    p.env_key = Some("X".to_string());
    match p.api_key(&map_of(&[("X", " key ")])) {
        Ok(Some(k)) => assert_eq!(k, " key "),
        _ => panic!("expected the key"),
    }
}

#[test]
fn retries_are_capped_and_defaulted() {
    let mut p = provider(WireApi::Chat, None);
    assert_eq!(p.request_max_retries(), 4);
    assert_eq!(p.stream_max_retries(), 5);
    p.request_max_retries = Some(250);
    p.stream_max_retries = Some(101);
    assert_eq!(p.request_max_retries(), 100);
    assert_eq!(p.stream_max_retries(), 100);
    p.request_max_retries = Some(7);
    p.stream_max_retries = Some(0);
    assert_eq!(p.request_max_retries(), 7);
    assert_eq!(p.stream_max_retries(), 0);
}

#[test]
fn idle_timeout_default_and_override() {
    let mut p = provider(WireApi::Chat, None);
    assert_eq!(p.stream_idle_timeout_millis(), 300_000);
    assert_eq!(p.stream_idle_timeout(), Duration::from_millis(300_000));
    p.stream_idle_timeout_ms = Some(1_500);
    assert_eq!(p.stream_idle_timeout(), Duration::from_millis(1_500));
}

#[test]
fn blank_env_header_is_left_out() {
    let mut p = provider(WireApi::Chat, None);
    p.env_http_headers = Some(map_of(&[("x-api-key", "K")]));
    let out = p.apply_http_headers(empty_plan(), &map_of(&[("K", "  ")]));
    assert!(out.headers.is_empty());
    let out = p.apply_http_headers(empty_plan(), &StringMap::new());
    assert!(out.headers.is_empty());
}

#[test]
fn env_header_value_is_untrimmed() {
    let mut p = provider(WireApi::Chat, None);
    p.env_http_headers = Some(map_of(&[("x-api-key", "K")]));
    let out = p.apply_http_headers(empty_plan(), &map_of(&[("K", "abc")]));
    assert_eq!(out.headers, vec![("x-api-key".to_string(), "abc".to_string())]);
    let out = p.apply_http_headers(empty_plan(), &map_of(&[("K", " abc ")]));
    assert_eq!(out.headers, vec![("x-api-key".to_string(), " abc ".to_string())]);
}

#[test]
fn static_headers_come_before_env_headers() {
    let mut p = provider(WireApi::Chat, None);
    p.http_headers = Some(map_of(&[("a", "1")]));
    p.env_http_headers = Some(map_of(&[("b", "VB")]));
    let out = p.apply_http_headers(empty_plan(), &map_of(&[("VB", "2")]));
    assert_eq!(
        out.headers,
        vec![
            ("a".to_string(), "1".to_string()),
            ("b".to_string(), "2".to_string())
        ]
    );
}

#[test]
fn bearer_override_takes_precedence() {
    let mut p = provider(WireApi::Chat, None);
    p.experimental_bearer_token = Some("secret".to_string());
    p.env_key = Some("X".to_string());
    let stored = Some(CodexAuth { mode: AuthMode::ChatGPT, api_key: None });
    match p.effective_auth(&StringMap::new(), &stored) {
        Ok(Some(a)) => {
            assert_eq!(a.mode, AuthMode::ApiKey);
            assert_eq!(a.api_key, Some("secret".to_string()));
        }
        _ => panic!("expected the override"),
    }
}

#[test]
fn env_key_beats_stored_credential() {
    let mut p = provider(WireApi::Chat, None);
    p.env_key = Some("X".to_string());
    let stored = Some(CodexAuth { mode: AuthMode::ChatGPT, api_key: None });
    match p.effective_auth(&map_of(&[("X", "k1")]), &stored) {
        Ok(Some(a)) => {
            assert_eq!(a.mode, AuthMode::ApiKey);
            assert_eq!(a.api_key, Some("k1".to_string()));
        }
        _ => panic!("expected the key from the environment"),
    }
}

#[test]
fn missing_env_key_falls_back_to_stored_credential() {
    let mut p = provider(WireApi::Chat, None);
    p.env_key = Some("X".to_string());
    let stored = Some(CodexAuth { mode: AuthMode::ChatGPT, api_key: None });
    match p.effective_auth(&StringMap::new(), &stored) {
        Ok(Some(a)) => assert_eq!(a.mode, AuthMode::ChatGPT),
        _ => panic!("expected the stored credential"),
    }
    assert!(matches!(
        p.effective_auth(&StringMap::new(), &None),
        Err(ProviderError::EnvVar(_))
    ));
}

#[test]
fn no_env_key_uses_stored_credential_or_none() {
    let p = provider(WireApi::Chat, None);
    assert!(matches!(p.effective_auth(&StringMap::new(), &None), Ok(None)));
    let stored = Some(CodexAuth::from_api_key("stored"));
    match p.effective_auth(&StringMap::new(), &stored) {
        Ok(Some(a)) => assert_eq!(a.api_key, Some("stored".to_string())),
        _ => panic!("expected the stored credential"),
    }
}

#[test]
fn request_builder_combines_url_headers_and_auth() {
    let mut p = provider(WireApi::Responses, None);
    p.http_headers = Some(map_of(&[("version", "9")]));
    let stored = Some(CodexAuth { mode: AuthMode::ChatGPT, api_key: None });
    let plan = match p.create_request_builder(&StringMap::new(), &stored) {
        Ok(plan) => plan,
        Err(_) => panic!("expected a request"),
    };
    assert_eq!(plan.url, "https://chatgpt.com/backend-api/codex/responses");
    assert_eq!(plan.headers, vec![("version".to_string(), "9".to_string())]);
    assert_eq!(plan.auth.unwrap().mode, AuthMode::ChatGPT);
}

#[test]
fn request_builder_surfaces_missing_key() {
    let mut p = provider(WireApi::Chat, None);
    p.env_key = Some("MISSING".to_string());
    match p.create_request_builder(&StringMap::new(), &None) {
        Err(ProviderError::EnvVar(e)) => assert_eq!(e.var, "MISSING"),
        _ => panic!("expected a missing variable error"),
    }
}

#[test]
fn unknown_wire_token_is_a_config_error() {
    match WireApi::from_token("grpc") {
        Err(ProviderError::Config(t)) => assert_eq!(t, "grpc"),
        _ => panic!("expected a configuration error"),
    }
    assert!(WireApi::from_token("Chat").is_err());
    assert_eq!(WireApi::default(), WireApi::Chat);
}

#[test]
fn oss_provider_port_from_environment() {
    let p = create_oss_provider(&StringMap::new());
    assert_eq!(p.base_url, Some("http://localhost:11434/v1".to_string()));
    let p = create_oss_provider(&map_of(&[("CODEX_OSS_PORT", "8080")]));
    assert_eq!(p.base_url, Some("http://localhost:8080/v1".to_string()));
    let p = create_oss_provider(&map_of(&[("CODEX_OSS_PORT", "+0042")]));
    assert_eq!(p.base_url, Some("http://localhost:42/v1".to_string()));
    let p = create_oss_provider(&map_of(&[("CODEX_OSS_PORT", "not a port")]));
    assert_eq!(p.base_url, Some("http://localhost:11434/v1".to_string()));
    let p = create_oss_provider(&map_of(&[("CODEX_OSS_PORT", "4294967296")]));
    assert_eq!(p.base_url, Some("http://localhost:11434/v1".to_string()));
    let p = create_oss_provider(&map_of(&[("CODEX_OSS_PORT", "4294967295")]));
    assert_eq!(p.base_url, Some("http://localhost:4294967295/v1".to_string()));
    let p = create_oss_provider(&map_of(&[
        ("CODEX_OSS_BASE_URL", "http://gpu:1/v1"),
        ("CODEX_OSS_PORT", "1"),
    ]));
    assert_eq!(p.base_url, Some("http://gpu:1/v1".to_string()));
}

#[test]
fn oss_provider_with_base_url_fields() {
    let p = create_oss_provider_with_base_url("http://h/v1");
    assert_eq!(p.name, "gpt-oss");
    assert_eq!(p.wire_api, WireApi::Chat);
    assert_eq!(p.base_url, Some("http://h/v1".to_string()));
    assert!(!p.requires_openai_auth);
}

#[test]
fn string_map_insert_replaces_existing_key() {
    let mut m = map_of(&[("a", "1"), ("b", "2")]);
    m.insert("a".to_string(), "3".to_string());
    assert_eq!(m.len(), 2);
    assert_eq!(m.get("a"), Some(&"3".to_string()));
    assert_eq!(m.get("c"), None);
    assert!(m.contains_key("b"));
}

#[test]
fn bearer_token_goes_into_authorization_header() {
    let mut p = provider(WireApi::Chat, Some("http://h"));
    p.experimental_bearer_token = Some("tok".to_string());
    p.http_headers = Some(map_of(&[("a", "1")]));
    let plan = match p.create_request_builder(&StringMap::new(), &None) {
        Ok(plan) => plan,
        Err(_) => panic!("expected a request"),
    };
    assert_eq!(plan.url, "http://h/chat/completions");
    let token = plan.auth.as_ref().unwrap().api_key.clone().unwrap();
    assert_eq!(token, "tok");
    let plan = plan.attach_bearer_token(&token);
    assert_eq!(
        plan.headers,
        vec![
            ("a".to_string(), "1".to_string()),
            ("Authorization".to_string(), "Bearer tok".to_string())
        ]
    );
}
