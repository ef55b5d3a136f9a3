//! The provider descriptor and what is computed from it: the endpoint URL,
//! the headers, the authentication decision and the retry policy.
use vstd::prelude::*;
use vstd::string::*;
use crate::keyed_map::{lemma_pairs_view_push, lookup, pairs_view, StringMap};
use crate::text::{blank, chars_of, contains_seq, is_blank, lower, occurs_in, same_chars, to_lower};

verus! {

pub const DEFAULT_STREAM_IDLE_TIMEOUT_MS: u64 = 300_000;

pub const DEFAULT_STREAM_MAX_RETRIES: u64 = 5;

pub const DEFAULT_REQUEST_MAX_RETRIES: u64 = 4;

/// Hard cap for a configured `stream_max_retries`.
pub const MAX_STREAM_MAX_RETRIES: u64 = 100;

/// Hard cap for a configured `request_max_retries`.
pub const MAX_REQUEST_MAX_RETRIES: u64 = 100;

/// Wire protocol that a provider speaks. The protocols use different request
/// and response shapes and cannot be told apart at runtime, so each provider
/// declares the one it expects.
#[derive(Clone, Copy, Debug, PartialEq, Eq, Structural)]
pub enum WireApi {
    /// The Responses API at `/v1/responses`.
    Responses,
    /// Chat Completions, compatible with `/v1/chat/completions`.
    Chat,
    /// Google Generative Language API at `/v1beta/models/{model}:streamGenerateContent`.
    GoogleGenAI,
    /// Anthropic Messages API at `/v1/messages`.
    AnthropicMessages,
}

impl Default for WireApi {
    fn default() -> (r: WireApi)
        ensures
            r == WireApi::Chat,
    {
        WireApi::Chat
    }
}

/// The token that names a wire protocol in a configuration document.
pub open spec fn wire_token(w: WireApi) -> Seq<char> {
    match w {
        WireApi::Responses => "responses"@,
        WireApi::Chat => "chat"@,
        WireApi::GoogleGenAI => "google_genai"@,
        WireApi::AnthropicMessages => "anthropic_messages"@,
    }
}

/// The protocol that a configuration token names, if any.
pub open spec fn wire_of_token(t: Seq<char>) -> Option<WireApi> {
    if t == "responses"@ {
        Some(WireApi::Responses)
    } else if t == "chat"@ {
        Some(WireApi::Chat)
    } else if t == "google_genai"@ {
        Some(WireApi::GoogleGenAI)
    } else if t == "anthropic_messages"@ {
        Some(WireApi::AnthropicMessages)
    } else {
        None
    }
}

fn str_equal(a: &str, b: &str) -> (r: bool)
    ensures
        r == (a@ == b@),
{
    String::from_str(a) == String::from_str(b)
}

impl WireApi {
    /// The configuration token of this protocol.
    pub fn as_token(&self) -> (r: &'static str)
        ensures
            r@ == wire_token(*self),
    {
        match self {
            WireApi::Responses => "responses",
            WireApi::Chat => "chat",
            WireApi::GoogleGenAI => "google_genai",
            WireApi::AnthropicMessages => "anthropic_messages",
        }
    }

    /// Reads a configuration token; an unknown token is a configuration error
    /// that carries the token.
    pub fn from_token(t: &str) -> (r: Result<WireApi, ProviderError>)
        ensures
            match r {
                Ok(w) => wire_of_token(t@) == Some(w),
                Err(e) => wire_of_token(t@) is None && e is Config && e->Config_0@ == t@,
            },
    {
        if str_equal(t, "responses") {
            Ok(WireApi::Responses)
        } else if str_equal(t, "chat") {
            Ok(WireApi::Chat)
        } else if str_equal(t, "google_genai") {
            Ok(WireApi::GoogleGenAI)
        } else if str_equal(t, "anthropic_messages") {
            Ok(WireApi::AnthropicMessages)
        } else {
            Err(ProviderError::Config(String::from_str(t)))
        }
    }
}

/// A variable named by a provider is unset or blank.
pub struct EnvVarError {
    /// Name of the variable.
    pub var: String,
    /// Help text on how to obtain a value for it.
    pub instructions: Option<String>,
}

pub enum ProviderError {
    /// A required environment variable is missing or blank.
    EnvVar(EnvVarError),
    /// A provider definition is malformed; holds the offending text.
    Config(String),
}

/// How a credential was obtained.
#[derive(Clone, Copy, Debug, PartialEq, Eq, Structural)]
pub enum AuthMode {
    /// A plain API key.
    ApiKey,
    /// A managed, interactive login.
    ChatGPT,
}

/// A credential: its mode, and the API key when it is a plain key.
pub struct CodexAuth {
    pub mode: AuthMode,
    pub api_key: Option<String>,
}

pub open spec fn opt_view(o: Option<String>) -> Option<Seq<char>> {
    match o {
        Some(s) => Some(s@),
        None => None,
    }
}

impl View for CodexAuth {
    type V = (AuthMode, Option<Seq<char>>);

    open spec fn view(&self) -> (AuthMode, Option<Seq<char>>) {
        (self.mode, opt_view(self.api_key))
    }
}

pub open spec fn auth_view(a: Option<CodexAuth>) -> Option<(AuthMode, Option<Seq<char>>)> {
    match a {
        Some(c) => Some(c@),
        None => None,
    }
}

fn clone_opt(o: &Option<String>) -> (r: Option<String>)
    ensures
        r == *o,
{
    match o {
        Some(s) => Some(s.clone()),
        None => None,
    }
}

impl CodexAuth {
    /// An ad-hoc credential made from an API key.
    pub fn from_api_key(key: &str) -> (r: CodexAuth)
        ensures
            r@ == (AuthMode::ApiKey, Some(key@)),
    {
        CodexAuth { mode: AuthMode::ApiKey, api_key: Some(String::from_str(key)) }
    }

    pub fn clone_auth(&self) -> (r: CodexAuth)
        ensures
            r == *self,
    {
        CodexAuth { mode: self.mode, api_key: clone_opt(&self.api_key) }
    }
}

fn clone_auth_opt(a: &Option<CodexAuth>) -> (r: Option<CodexAuth>)
    ensures
        r == *a,
{
    match a {
        Some(c) => Some(c.clone_auth()),
        None => None,
    }
}

/// A request ready to be sent with `POST`: the target URL, the headers in the
/// order they are added, and the credential whose bearer token goes into the
/// `Authorization` header, if any.
pub struct RequestPlan {
    pub url: String,
    pub headers: Vec<(String, String)>,
    pub auth: Option<CodexAuth>,
}

impl RequestPlan {
    /// Adds `Authorization: Bearer <token>`, with the token obtained from the
    /// plan's credential.
    pub fn attach_bearer_token(self, token: &str) -> (r: RequestPlan)
        ensures
            r.url == self.url,
            r.auth == self.auth,
            pairs_view(r.headers@) == pairs_view(self.headers@).push(
                ("Authorization"@, "Bearer "@ + token@),
            ),
    {
        let RequestPlan { url, mut headers, auth } = self;
        let ghost before = headers@;
        let mut value = String::from_str("Bearer ");
        value.append(token);
        let e = (String::from_str("Authorization"), value);
        headers.push(e);
        proof {
            lemma_pairs_view_push(before, e);
        }
        RequestPlan { url, headers, auth }
    }
}

/// Definition of one provider.
pub struct ModelProviderInfo {
    /// Display name.
    pub name: String,
    /// Base URL of the provider's API; when absent a default is used.
    pub base_url: Option<String>,
    /// Environment variable that holds the API key for this provider.
    pub env_key: Option<String>,
    /// Help text shown when the variable of `env_key` is missing.
    pub env_key_instructions: Option<String>,
    /// Secret used as `Authorization: Bearer <token>` before anything else.
    pub experimental_bearer_token: Option<String>,
    /// Protocol the provider expects.
    pub wire_api: WireApi,
    /// Query parameters appended to every request URL.
    pub query_params: Option<StringMap>,
    /// Headers sent with every request: header name to value.
    pub http_headers: Option<StringMap>,
    /// Headers whose value comes from the environment: header name to the
    /// name of the variable. A header whose variable is unset or blank is left out.
    pub env_http_headers: Option<StringMap>,
    /// Maximum number of retries of a failed request.
    pub request_max_retries: Option<u64>,
    /// Maximum number of reconnections of a dropped stream.
    pub stream_max_retries: Option<u64>,
    /// Idle time, in milliseconds, after which a stream counts as lost.
    pub stream_idle_timeout_ms: Option<u64>,
    /// Whether the provider takes part in the managed login flow and may use
    /// a stored credential.
    pub requires_openai_auth: bool,
}

// ---------------------------------------------------------------- URL

/// One query parameter as `key=value`.
pub open spec fn param_text(e: (Seq<char>, Seq<char>)) -> Seq<char> {
    e.0 + "="@ + e.1
}

/// The parameters as `key=value` joined by `&`.
pub open spec fn joined_params(s: Seq<(Seq<char>, Seq<char>)>) -> Seq<char>
    decreases s.len(),
{
    if s.len() == 0 {
        Seq::empty()
    } else if s.len() == 1 {
        param_text(s[0])
    } else {
        joined_params(s.drop_last()) + "&"@ + param_text(s.last())
    }
}

/// The query string: `?` and the joined parameters, or nothing when there
/// are no parameters. Values are taken as they are, with no encoding.
pub open spec fn query_string(p: ModelProviderInfo) -> Seq<char> {
    match p.query_params {
        Some(m) => if m@.len() == 0 {
            Seq::empty()
        } else {
            "?"@ + joined_params(m@)
        },
        None => Seq::empty(),
    }
}

pub open spec fn managed_login(auth: Option<CodexAuth>) -> bool {
    match auth {
        Some(a) => a.mode == AuthMode::ChatGPT,
        None => false,
    }
}

/// The host used when a provider has no base URL.
pub open spec fn default_base_url(auth: Option<CodexAuth>) -> Seq<char> {
    if managed_login(auth) {
        "https://chatgpt.com/backend-api/codex"@
    } else {
        "https://api.openai.com/v1"@
    }
}

pub open spec fn effective_base_url(p: ModelProviderInfo, auth: Option<CodexAuth>) -> Seq<char> {
    match p.base_url {
        Some(b) => b@,
        None => default_base_url(auth),
    }
}

/// The path of each protocol's endpoint. The `{model}` placeholder is left
/// for the caller to fill in.
pub open spec fn endpoint_path(w: WireApi) -> Seq<char> {
    match w {
        WireApi::Responses => "/responses"@,
        WireApi::Chat => "/chat/completions"@,
        WireApi::GoogleGenAI => "/models/{model}:streamGenerateContent"@,
        WireApi::AnthropicMessages => "/messages"@,
    }
}

pub open spec fn full_url(p: ModelProviderInfo, auth: Option<CodexAuth>) -> Seq<char> {
    effective_base_url(p, auth) + endpoint_path(p.wire_api) + query_string(p)
}

/// The base URL, lower-cased, names an Azure OpenAI host.
pub open spec fn azure_base_url(b: Seq<char>) -> bool {
    let l = lower(b);
    occurs_in("openai.azure."@, l) || occurs_in("cognitiveservices.azure."@, l) || occurs_in(
        "aoai.azure."@,
        l,
    ) || occurs_in("azure-api."@, l) || occurs_in("azurefd."@, l)
}

pub open spec fn azure_responses_endpoint(p: ModelProviderInfo) -> bool {
    p.wire_api == WireApi::Responses && (lower(p.name@) == "azure"@ || match p.base_url {
        Some(b) => azure_base_url(b@),
        None => false,
    })
}

/// Whether a base URL points at an Azure OpenAI deployment, judged by the
/// host name alone.
pub fn matches_azure_responses_base_url(base_url: &str) -> (r: bool)
    ensures
        r == azure_base_url(base_url@),
{
    let base = to_lower(base_url);
    contains_seq(&base, &chars_of("openai.azure.")) || contains_seq(
        &base,
        &chars_of("cognitiveservices.azure."),
    ) || contains_seq(&base, &chars_of("aoai.azure.")) || contains_seq(
        &base,
        &chars_of("azure-api."),
    ) || contains_seq(&base, &chars_of("azurefd."))
}

// ---------------------------------------------------------------- headers

/// The headers taken from the environment: for each (header, variable) in
/// order, the header with the variable's value, where the variable is set and
/// its value is not blank. The value is kept untrimmed.
pub open spec fn env_header_values(
    hs: Seq<(Seq<char>, Seq<char>)>,
    env: Seq<(Seq<char>, Seq<char>)>,
) -> Seq<(Seq<char>, Seq<char>)>
    decreases hs.len(),
{
    if hs.len() == 0 {
        Seq::empty()
    } else {
        let prev = env_header_values(hs.drop_last(), env);
        match lookup(env, hs.last().1) {
            Some(v) => if blank(v) {
                prev
            } else {
                prev.push((hs.last().0, v))
            },
            None => prev,
        }
    }
}

pub open spec fn map_entries(m: Option<StringMap>) -> Seq<(Seq<char>, Seq<char>)> {
    match m {
        Some(m) => m@,
        None => Seq::empty(),
    }
}

/// Every header a provider adds: the static ones, then those from the environment.
pub open spec fn provider_headers(p: ModelProviderInfo, env: Seq<(Seq<char>, Seq<char>)>) -> Seq<
    (Seq<char>, Seq<char>),
> {
    map_entries(p.http_headers) + env_header_values(map_entries(p.env_http_headers), env)
}

// ---------------------------------------------------------------- authentication

/// The value of the provider's key variable when it is set and not blank.
pub open spec fn env_key_value(p: ModelProviderInfo, env: Seq<(Seq<char>, Seq<char>)>) -> Option<
    Seq<char>,
> {
    match p.env_key {
        Some(k) => match lookup(env, k@) {
            Some(v) => if blank(v) {
                None
            } else {
                Some(v)
            },
            None => None,
        },
        None => None,
    }
}

/// The error for a missing key variable.
pub open spec fn missing_env_error(p: ModelProviderInfo) -> ProviderError {
    ProviderError::EnvVar(EnvVarError { var: p.env_key.unwrap(), instructions: p.env_key_instructions })
}

/// The credential used for a request, in order of precedence: the explicit
/// bearer token; the key from the environment; the stored credential. A key
/// variable that is declared but missing is an error only when no stored
/// credential exists.
pub open spec fn effective_auth_spec(
    p: ModelProviderInfo,
    env: Seq<(Seq<char>, Seq<char>)>,
    stored: Option<CodexAuth>,
) -> Result<Option<(AuthMode, Option<Seq<char>>)>, ProviderError> {
    match p.experimental_bearer_token {
        Some(t) => Ok(Some((AuthMode::ApiKey, Some(t@)))),
        None => match p.env_key {
            None => Ok(auth_view(stored)),
            Some(_) => match env_key_value(p, env) {
                Some(v) => Ok(Some((AuthMode::ApiKey, Some(v)))),
                None => if stored is Some {
                    Ok(auth_view(stored))
                } else {
                    Err(missing_env_error(p))
                },
            },
        },
    }
}

pub open spec fn auth_result_view(r: Result<Option<CodexAuth>, ProviderError>) -> Result<
    Option<(AuthMode, Option<Seq<char>>)>,
    ProviderError,
> {
    match r {
        Ok(a) => Ok(auth_view(a)),
        Err(e) => Err(e),
    }
}

// ---------------------------------------------------------------- policy

pub open spec fn capped(v: Option<u64>, default: u64, cap: u64) -> u64 {
    let n = match v {
        Some(n) => n,
        None => default,
    };
    if n < cap {
        n
    } else {
        cap
    }
}

pub open spec fn idle_timeout_ms(p: ModelProviderInfo) -> u64 {
    match p.stream_idle_timeout_ms {
        Some(n) => n,
        None => DEFAULT_STREAM_IDLE_TIMEOUT_MS,
    }
}

/// The `Duration` of a number of milliseconds.
pub uninterp spec fn duration_of_millis(ms: u64) -> std::time::Duration;

/// Relies on `std::time::Duration::from_millis`, which depends on its argument alone.
#[verifier::external_body]
fn millis_to_duration(ms: u64) -> (r: std::time::Duration)
    ensures
        r == duration_of_millis(ms),
{
    std::time::Duration::from_millis(ms)
}

impl ModelProviderInfo {
    /// `?key=value&...` built from the query parameters, or the empty string.
    pub fn get_query_string(&self) -> (r: String)
        ensures
            r@ == query_string(*self),
    {
        let mut out = String::new();
        match &self.query_params {
            None => {},
            Some(m) => {
                let n = m.len();
                let mut i: usize = 0;
                while i < n
                    invariant
                        n == m@.len(),
                        i <= n,
                        out@ == (if i == 0 {
                            Seq::<char>::empty()
                        } else {
                            "?"@ + joined_params(m@.subrange(0, i as int))
                        }),
                    decreases n - i,
                {
                    if i == 0 {
                        out.append("?");
                    } else {
                        out.append("&");
                    }
                    out.append(m.key_at(i).as_str());
                    out.append("=");
                    out.append(m.value_at(i).as_str());
                    proof {
                        let s = m@.subrange(0, i + 1);
                        assert(s.drop_last() =~= m@.subrange(0, i as int));
                        assert(s.last() == m@[i as int]);
                        assert(out@ =~= "?"@ + joined_params(s));
                    }
                    i = i + 1;
                }
                assert(m@.subrange(0, n as int) =~= m@);
            },
        }
        out
    }

    /// The full request URL: base URL, protocol path, query string.
    pub fn get_full_url(&self, auth: &Option<CodexAuth>) -> (r: String)
        ensures
            r@ == full_url(*self, *auth),
    {
        let managed = match auth {
            Some(a) => a.mode == AuthMode::ChatGPT,
            None => false,
        };
        let mut url = match &self.base_url {
            Some(b) => b.clone(),
            None => if managed {
                String::from_str("https://chatgpt.com/backend-api/codex")
            } else {
                String::from_str("https://api.openai.com/v1")
            },
        };
        match self.wire_api {
            WireApi::Responses => url.append("/responses"),
            WireApi::Chat => url.append("/chat/completions"),
            WireApi::GoogleGenAI => url.append("/models/{model}:streamGenerateContent"),
            WireApi::AnthropicMessages => url.append("/messages"),
        }
        let q = self.get_query_string();
        url.append(q.as_str());
        url
    }

    /// Whether this is an Azure OpenAI endpoint speaking the Responses
    /// protocol: by the name `azure` in any case, or by the host of the base
    /// URL. A heuristic, not fit for security decisions.
    pub fn is_azure_responses_endpoint(&self) -> (r: bool)
        ensures
            r == azure_responses_endpoint(*self),
    {
        if self.wire_api != WireApi::Responses {
            return false;
        }
        if same_chars(&to_lower(self.name.as_str()), &chars_of("azure")) {
            return true;
        }
        match &self.base_url {
            Some(b) => matches_azure_responses_base_url(b.as_str()),
            None => false,
        }
    }

    /// Adds the provider's headers to `plan`: the static ones, then those
    /// whose variable in `env` is set and not blank.
    pub fn apply_http_headers(&self, plan: RequestPlan, env: &StringMap) -> (r: RequestPlan)
        ensures
            r.url == plan.url,
            r.auth == plan.auth,
            pairs_view(r.headers@) == pairs_view(plan.headers@) + provider_headers(*self, env@),
    {
        let RequestPlan { url, mut headers, auth } = plan;
        let ghost start = pairs_view(headers@);
        match &self.http_headers {
            None => {},
            Some(m) => {
                let mut i: usize = 0;
                while i < m.len()
                    invariant
                        i <= m@.len(),
                        pairs_view(headers@) == start + m@.subrange(0, i as int),
                    decreases m@.len() - i,
                {
                    let ghost before = headers@;
                    let e = (m.key_at(i).clone(), m.value_at(i).clone());
                    headers.push(e);
                    proof {
                        lemma_pairs_view_push(before, e);
                    }
                    i = i + 1;
                    assert(pairs_view(headers@) =~= start + m@.subrange(0, i as int));
                }
                assert(m@.subrange(0, i as int) =~= m@);
            },
        }
        let ghost mid = pairs_view(headers@);
        assert(mid == start + map_entries(self.http_headers)) by {
            if self.http_headers is None {
                assert(start + Seq::<(Seq<char>, Seq<char>)>::empty() =~= start);
            }
        }
        match &self.env_http_headers {
            None => {
                assert(mid + Seq::<(Seq<char>, Seq<char>)>::empty() =~= mid);
            },
            Some(m) => {
                let mut i: usize = 0;
                while i < m.len()
                    invariant
                        i <= m@.len(),
                        pairs_view(headers@) == mid + env_header_values(m@.subrange(0, i as int), env@),
                    decreases m@.len() - i,
                {
                    let ghost sub = m@.subrange(0, i + 1);
                    assert(sub.drop_last() =~= m@.subrange(0, i as int));
                    assert(sub.last() == m@[i as int]);
                    match env.get(m.value_at(i).as_str()) {
                        Some(val) => {
                            if !is_blank(val.as_str()) {
                                let ghost before = headers@;
                                let e = (m.key_at(i).clone(), val.clone());
                                headers.push(e);
                                proof {
                                    lemma_pairs_view_push(before, e);
                                }
                                assert(pairs_view(headers@) =~= mid + env_header_values(sub, env@));
                            }
                        },
                        None => {},
                    }
                    i = i + 1;
                }
                assert(m@.subrange(0, i as int) =~= m@);
            },
        }
        assert(pairs_view(headers@) =~= start + provider_headers(*self, env@));
        RequestPlan { url, headers, auth }
    }

    /// The API key from the variable named by `env_key`, read from `env`.
    /// `None` when the provider names no variable; an error when the variable
    /// is unset or blank.
    pub fn api_key(&self, env: &StringMap) -> (r: Result<Option<String>, ProviderError>)
        ensures
            match r {
                Ok(Some(k)) => self.env_key is Some && env_key_value(*self, env@) == Some(k@),
                Ok(None) => self.env_key is None,
                Err(e) => self.env_key is Some && env_key_value(*self, env@) is None && e
                    == missing_env_error(*self),
            },
    {
        match &self.env_key {
            Some(env_key) => {
                let found = match env.get(env_key.as_str()) {
                    Some(v) => if is_blank(v.as_str()) {
                        None
                    } else {
                        Some(v.clone())
                    },
                    None => None,
                };
                match found {
                    Some(v) => Ok(Some(v)),
                    None => Err(
                        ProviderError::EnvVar(
                            EnvVarError {
                                var: env_key.clone(),
                                instructions: clone_opt(&self.env_key_instructions),
                            },
                        ),
                    ),
                }
            },
            None => Ok(None),
        }
    }

    /// Chooses the credential for one request (see `effective_auth_spec`).
    pub fn effective_auth(&self, env: &StringMap, auth: &Option<CodexAuth>) -> (r: Result<
        Option<CodexAuth>,
        ProviderError,
    >)
        ensures
            auth_result_view(r) == effective_auth_spec(*self, env@, *auth),
    {
        if let Some(secret_key) = &self.experimental_bearer_token {
            return Ok(Some(CodexAuth::from_api_key(secret_key.as_str())));
        }
        match self.api_key(env) {
            Ok(Some(key)) => Ok(Some(CodexAuth::from_api_key(key.as_str()))),
            Ok(None) => Ok(clone_auth_opt(auth)),
            Err(err) => {
                if auth.is_some() {
                    Ok(clone_auth_opt(auth))
                } else {
                    Err(err)
                }
            },
        }
    }

    /// Prepares a `POST` request to this provider: the credential chosen by
    /// `effective_auth`, the URL for that credential, and the provider's headers.
    pub fn create_request_builder(&self, env: &StringMap, auth: &Option<CodexAuth>) -> (r: Result<
        RequestPlan,
        ProviderError,
    >)
        ensures
            match r {
                Ok(plan) => effective_auth_spec(*self, env@, *auth) == Ok::<
                    Option<(AuthMode, Option<Seq<char>>)>,
                    ProviderError,
                >(auth_view(plan.auth)) && plan.url@ == full_url(*self, plan.auth)
                    && pairs_view(plan.headers@) == provider_headers(*self, env@),
                Err(e) => effective_auth_spec(*self, env@, *auth) == Err::<
                    Option<(AuthMode, Option<Seq<char>>)>,
                    ProviderError,
                >(e),
            },
    {
        match self.effective_auth(env, auth) {
            Ok(effective) => {
                let url = self.get_full_url(&effective);
                let plan = RequestPlan { url, headers: Vec::new(), auth: effective };
                let r = self.apply_http_headers(plan, env);
                assert(pairs_view(Seq::<(String, String)>::empty()) =~= Seq::empty());
                assert(Seq::<(Seq<char>, Seq<char>)>::empty() + provider_headers(*self, env@)
                    =~= provider_headers(*self, env@));
                Ok(r)
            },
            Err(e) => Err(e),
        }
    }

    /// Effective maximum number of request retries: the configured value or
    /// the default, at most the cap.
    pub fn request_max_retries(&self) -> (r: u64)
        ensures
            r == capped(self.request_max_retries, DEFAULT_REQUEST_MAX_RETRIES, MAX_REQUEST_MAX_RETRIES),
    {
        let n = match self.request_max_retries {
            Some(n) => n,
            None => DEFAULT_REQUEST_MAX_RETRIES,
        };
        if n < MAX_REQUEST_MAX_RETRIES {
            n
        } else {
            MAX_REQUEST_MAX_RETRIES
        }
    }

    /// Effective maximum number of stream reconnections: the configured value
    /// or the default, at most the cap.
    pub fn stream_max_retries(&self) -> (r: u64)
        ensures
            r == capped(self.stream_max_retries, DEFAULT_STREAM_MAX_RETRIES, MAX_STREAM_MAX_RETRIES),
    {
        let n = match self.stream_max_retries {
            Some(n) => n,
            None => DEFAULT_STREAM_MAX_RETRIES,
        };
        if n < MAX_STREAM_MAX_RETRIES {
            n
        } else {
            MAX_STREAM_MAX_RETRIES
        }
    }

    /// Effective idle timeout of a stream, in milliseconds.
    pub fn stream_idle_timeout_millis(&self) -> (r: u64)
        ensures
            r == idle_timeout_ms(*self),
    {
        match self.stream_idle_timeout_ms {
            Some(n) => n,
            None => DEFAULT_STREAM_IDLE_TIMEOUT_MS,
        }
    }

    /// Effective idle timeout of a stream.
    pub fn stream_idle_timeout(&self) -> (r: std::time::Duration)
        ensures
            r == duration_of_millis(idle_timeout_ms(*self)),
    {
        millis_to_duration(self.stream_idle_timeout_millis())
    }
}

} // verus!
