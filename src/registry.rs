//! The built-in providers. Whatever they read from the environment is read
//! from an explicit snapshot of it, once, when they are built.
use vstd::prelude::*;
use vstd::string::*;
use crate::keyed_map::{lookup, StringMap};
use crate::provider::{opt_view, ModelProviderInfo, WireApi};
use crate::text::{blank, decimal, is_blank, parse_u32, parsed_u32, push_decimal};

verus! {

/// Port of a local OpenAI-compatible server when none is configured.
pub const DEFAULT_OLLAMA_PORT: u32 = 11434;

pub const BUILT_IN_OPENAI_MODEL_PROVIDER_ID: &'static str = "openai";

pub const BUILT_IN_OSS_MODEL_PROVIDER_ID: &'static str = "oss";

pub const BUILT_IN_GOOGLE_GENAI_MODEL_PROVIDER_ID: &'static str = "google_genai";

pub const BUILT_IN_ANTHROPIC_MODEL_PROVIDER_ID: &'static str = "anthropic";

/// The value of variable `name` in `env` when it is set and not blank.
pub open spec fn env_setting(env: Seq<(Seq<char>, Seq<char>)>, name: Seq<char>) -> Option<Seq<char>> {
    match lookup(env, name) {
        Some(v) => if blank(v) {
            None
        } else {
            Some(v)
        },
        None => None,
    }
}

fn env_setting_exec(env: &StringMap, name: &str) -> (r: Option<String>)
    ensures
        opt_view(r) == env_setting(env@, name@),
{
    match env.get(name) {
        Some(v) => if is_blank(v.as_str()) {
            None
        } else {
            Some(v.clone())
        },
        None => None,
    }
}

fn single_entry_map(k: &str, v: &str) -> (r: StringMap)
    ensures
        r@ == seq![(k@, v@)],
{
    let mut m = StringMap::new();
    m.insert(String::from_str(k), String::from_str(v));
    assert(m@ =~= seq![(k@, v@)]);
    m
}

/// The fields that every built-in provider leaves unset.
pub open spec fn plain_defaults(p: ModelProviderInfo) -> bool {
    p.experimental_bearer_token is None && p.query_params is None && p.request_max_retries is None
        && p.stream_max_retries is None && p.stream_idle_timeout_ms is None
}

/// The port of the local server: `CODEX_OSS_PORT` when it is set, not blank
/// and a valid `u32`, else the default.
pub open spec fn oss_port(env: Seq<(Seq<char>, Seq<char>)>) -> u32 {
    match env_setting(env, "CODEX_OSS_PORT"@) {
        Some(v) => match parsed_u32(v) {
            Some(n) => n,
            None => DEFAULT_OLLAMA_PORT,
        },
        None => DEFAULT_OLLAMA_PORT,
    }
}

/// `CODEX_OSS_BASE_URL` when set and not blank, else
/// `http://localhost:<port>/v1`.
pub open spec fn oss_base_url(env: Seq<(Seq<char>, Seq<char>)>) -> Seq<char> {
    match env_setting(env, "CODEX_OSS_BASE_URL"@) {
        Some(u) => u,
        None => "http://localhost:"@ + decimal(oss_port(env) as nat) + "/v1"@,
    }
}

pub open spec fn is_oss_provider(p: ModelProviderInfo, base_url: Seq<char>) -> bool {
    &&& p.name@ == "gpt-oss"@
    &&& opt_view(p.base_url) == Some(base_url)
    &&& p.env_key is None
    &&& p.env_key_instructions is None
    &&& p.wire_api == WireApi::Chat
    &&& p.http_headers is None
    &&& p.env_http_headers is None
    &&& !p.requires_openai_auth
    &&& plain_defaults(p)
}

pub open spec fn is_google_genai_provider(p: ModelProviderInfo, env: Seq<(Seq<char>, Seq<char>)>) -> bool {
    &&& p.name@ == "Google GenAI"@
    &&& opt_view(p.base_url) == Some(
        match env_setting(env, "GOOGLE_GENAI_BASE_URL"@) {
            Some(u) => u,
            None => "https://generativelanguage.googleapis.com/v1beta"@,
        },
    )
    &&& opt_view(p.env_key) == Some("GOOGLE_GENAI_API_KEY"@)
    &&& opt_view(p.env_key_instructions) == Some(
        "Get your API key from https://aistudio.google.com/app/apikey"@,
    )
    &&& p.wire_api == WireApi::GoogleGenAI
    &&& p.http_headers is None
    &&& p.env_http_headers is Some
    &&& p.env_http_headers.unwrap()@ == seq![("x-goog-api-key"@, "GOOGLE_GENAI_API_KEY"@)]
    &&& !p.requires_openai_auth
    &&& plain_defaults(p)
}

pub open spec fn is_anthropic_provider(p: ModelProviderInfo, env: Seq<(Seq<char>, Seq<char>)>) -> bool {
    &&& p.name@ == "Anthropic"@
    &&& opt_view(p.base_url) == Some(
        match env_setting(env, "ANTHROPIC_BASE_URL"@) {
            Some(u) => u,
            None => "https://api.anthropic.com/v1"@,
        },
    )
    &&& opt_view(p.env_key) == Some("ANTHROPIC_API_KEY"@)
    &&& opt_view(p.env_key_instructions) == Some(
        "Get your API key from https://console.anthropic.com/settings/keys"@,
    )
    &&& p.wire_api == WireApi::AnthropicMessages
    &&& p.http_headers is Some
    &&& p.http_headers.unwrap()@ == seq![("anthropic-version"@, "2023-06-01"@)]
    &&& p.env_http_headers is Some
    &&& p.env_http_headers.unwrap()@ == seq![("x-api-key"@, "ANTHROPIC_API_KEY"@)]
    &&& !p.requires_openai_auth
    &&& plain_defaults(p)
}

pub open spec fn is_openai_provider(
    p: ModelProviderInfo,
    env: Seq<(Seq<char>, Seq<char>)>,
    version: Seq<char>,
) -> bool {
    &&& p.name@ == "OpenAI"@
    &&& opt_view(p.base_url) == env_setting(env, "OPENAI_BASE_URL"@)
    &&& p.env_key is None
    &&& p.env_key_instructions is None
    &&& p.wire_api == WireApi::Responses
    &&& p.http_headers is Some
    &&& p.http_headers.unwrap()@ == seq![("version"@, version)]
    &&& p.env_http_headers is Some
    &&& p.env_http_headers.unwrap()@ == seq![
        ("OpenAI-Organization"@, "OPENAI_ORGANIZATION"@),
        ("OpenAI-Project"@, "OPENAI_PROJECT"@),
    ]
    &&& p.requires_openai_auth
    &&& plain_defaults(p)
}

/// The local OpenAI-compatible server at `base_url`.
pub fn create_oss_provider_with_base_url(base_url: &str) -> (r: ModelProviderInfo)
    ensures
        is_oss_provider(r, base_url@),
{
    ModelProviderInfo {
        name: String::from_str("gpt-oss"),
        base_url: Some(String::from_str(base_url)),
        env_key: None,
        env_key_instructions: None,
        experimental_bearer_token: None,
        wire_api: WireApi::Chat,
        query_params: None,
        http_headers: None,
        env_http_headers: None,
        request_max_retries: None,
        stream_max_retries: None,
        stream_idle_timeout_ms: None,
        requires_openai_auth: false,
    }
}

/// The local OpenAI-compatible server, located by `CODEX_OSS_BASE_URL`, or
/// on localhost at `CODEX_OSS_PORT`.
pub fn create_oss_provider(env: &StringMap) -> (r: ModelProviderInfo)
    ensures
        is_oss_provider(r, oss_base_url(env@)),
{
    let base_url = match env_setting_exec(env, "CODEX_OSS_BASE_URL") {
        Some(url) => url,
        None => {
            let port = match env_setting_exec(env, "CODEX_OSS_PORT") {
                Some(v) => match parse_u32(v.as_str()) {
                    Some(n) => n,
                    None => DEFAULT_OLLAMA_PORT,
                },
                None => DEFAULT_OLLAMA_PORT,
            };
            let mut url = String::from_str("http://localhost:");
            push_decimal(&mut url, port);
            url.append("/v1");
            url
        },
    };
    create_oss_provider_with_base_url(base_url.as_str())
}

/// The Google Generative Language API (Gemini), keyed by
/// `GOOGLE_GENAI_API_KEY` in the `x-goog-api-key` header; its base URL may be
/// overridden by `GOOGLE_GENAI_BASE_URL`.
pub fn create_google_genai_provider(env: &StringMap) -> (r: ModelProviderInfo)
    ensures
        is_google_genai_provider(r, env@),
{
    let base_url = match env_setting_exec(env, "GOOGLE_GENAI_BASE_URL") {
        Some(u) => u,
        None => String::from_str("https://generativelanguage.googleapis.com/v1beta"),
    };
    ModelProviderInfo {
        name: String::from_str("Google GenAI"),
        base_url: Some(base_url),
        env_key: Some(String::from_str("GOOGLE_GENAI_API_KEY")),
        env_key_instructions: Some(
            String::from_str("Get your API key from https://aistudio.google.com/app/apikey"),
        ),
        experimental_bearer_token: None,
        wire_api: WireApi::GoogleGenAI,
        query_params: None,
        http_headers: None,
        env_http_headers: Some(single_entry_map("x-goog-api-key", "GOOGLE_GENAI_API_KEY")),
        request_max_retries: None,
        stream_max_retries: None,
        stream_idle_timeout_ms: None,
        requires_openai_auth: false,
    }
}

/// The Anthropic Messages API, keyed by `ANTHROPIC_API_KEY` in the
/// `x-api-key` header and sending an `anthropic-version` header; its base URL
/// may be overridden by `ANTHROPIC_BASE_URL`.
pub fn create_anthropic_provider(env: &StringMap) -> (r: ModelProviderInfo)
    ensures
        is_anthropic_provider(r, env@),
{
    let base_url = match env_setting_exec(env, "ANTHROPIC_BASE_URL") {
        Some(u) => u,
        None => String::from_str("https://api.anthropic.com/v1"),
    };
    ModelProviderInfo {
        name: String::from_str("Anthropic"),
        base_url: Some(base_url),
        env_key: Some(String::from_str("ANTHROPIC_API_KEY")),
        env_key_instructions: Some(
            String::from_str("Get your API key from https://console.anthropic.com/settings/keys"),
        ),
        experimental_bearer_token: None,
        wire_api: WireApi::AnthropicMessages,
        query_params: None,
        http_headers: Some(single_entry_map("anthropic-version", "2023-06-01")),
        env_http_headers: Some(single_entry_map("x-api-key", "ANTHROPIC_API_KEY")),
        request_max_retries: None,
        stream_max_retries: None,
        stream_idle_timeout_ms: None,
        requires_openai_auth: false,
    }
}

/// OpenAI's own provider: the Responses protocol, the managed login, a
/// `version` header with `version`, and organization and project headers from
/// the environment; its base URL may be set by `OPENAI_BASE_URL`.
pub fn create_openai_provider(env: &StringMap, version: &str) -> (r: ModelProviderInfo)
    ensures
        is_openai_provider(r, env@, version@),
{
    let mut env_headers = single_entry_map("OpenAI-Organization", "OPENAI_ORGANIZATION");
    proof {
        reveal_strlit("OpenAI-Organization");
        reveal_strlit("OpenAI-Project");
        assert("OpenAI-Organization"@[7] != "OpenAI-Project"@[7]);
    }
    env_headers.insert(String::from_str("OpenAI-Project"), String::from_str("OPENAI_PROJECT"));
    assert(env_headers@ =~= seq![
        ("OpenAI-Organization"@, "OPENAI_ORGANIZATION"@),
        ("OpenAI-Project"@, "OPENAI_PROJECT"@),
    ]);
    ModelProviderInfo {
        name: String::from_str("OpenAI"),
        base_url: env_setting_exec(env, "OPENAI_BASE_URL"),
        env_key: None,
        env_key_instructions: None,
        experimental_bearer_token: None,
        wire_api: WireApi::Responses,
        query_params: None,
        http_headers: Some(single_entry_map("version", version)),
        env_http_headers: Some(env_headers),
        request_max_retries: None,
        stream_max_retries: None,
        stream_idle_timeout_ms: None,
        requires_openai_auth: true,
    }
}

/// Providers by id.
pub struct ProviderRegistry {
    entries: Vec<(String, ModelProviderInfo)>,
}

impl View for ProviderRegistry {
    type V = Seq<(Seq<char>, ModelProviderInfo)>;

    closed spec fn view(&self) -> Seq<(Seq<char>, ModelProviderInfo)> {
        self.entries@.map_values(|e: (String, ModelProviderInfo)| (e.0@, e.1))
    }
}

impl ProviderRegistry {
    pub fn len(&self) -> (r: usize)
        ensures
            r == self@.len(),
    {
        self.entries.len()
    }

    /// The provider registered under `id`.
    pub fn get(&self, id: &str) -> (r: Option<&ModelProviderInfo>)
        ensures
            match r {
                Some(p) => lookup(self@, id@) == Some(*p),
                None => lookup(self@, id@) is None,
            },
    {
        let k = String::from_str(id);
        let mut i: usize = 0;
        while i < self.entries.len()
            invariant
                k@ == id@,
                i <= self@.len(),
                self@.len() == self.entries@.len(),
                forall|j: int| 0 <= j < i ==> #[trigger] self@[j].0 != id@,
            decreases self.entries.len() - i,
        {
            if self.entries[i].0 == k {
                proof {
                    crate::keyed_map::lemma_lookup_skip(self@, id@, i as int);
                }
                return Some(&self.entries[i].1);
            }
            i = i + 1;
        }
        proof {
            crate::keyed_map::lemma_lookup_skip(self@, id@, i as int);
        }
        None
    }

    pub fn contains_key(&self, id: &str) -> (r: bool)
        ensures
            r == (lookup(self@, id@) is Some),
    {
        self.get(id).is_some()
    }
}

/// The built-in providers, `openai`, `oss`, `google_genai` and `anthropic`,
/// built from the environment snapshot `env`; `version` is the version of the
/// running build, sent to OpenAI.
pub fn built_in_model_providers(env: &StringMap, version: &str) -> (r: ProviderRegistry)
    ensures
        r@.len() == 4,
        r@[0].0 == "openai"@ && is_openai_provider(r@[0].1, env@, version@),
        r@[1].0 == "oss"@ && is_oss_provider(r@[1].1, oss_base_url(env@)),
        r@[2].0 == "google_genai"@ && is_google_genai_provider(r@[2].1, env@),
        r@[3].0 == "anthropic"@ && is_anthropic_provider(r@[3].1, env@),
{
    let mut entries: Vec<(String, ModelProviderInfo)> = Vec::new();
    entries.push((String::from_str(BUILT_IN_OPENAI_MODEL_PROVIDER_ID), create_openai_provider(env, version)));
    entries.push((String::from_str(BUILT_IN_OSS_MODEL_PROVIDER_ID), create_oss_provider(env)));
    entries.push(
        (String::from_str(BUILT_IN_GOOGLE_GENAI_MODEL_PROVIDER_ID), create_google_genai_provider(env)),
    );
    entries.push((String::from_str(BUILT_IN_ANTHROPIC_MODEL_PROVIDER_ID), create_anthropic_provider(env)));
    ProviderRegistry { entries }
}

} // verus!
