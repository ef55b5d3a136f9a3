//! Properties that relate the functions of the library, proved over their
//! specifications.
use vstd::prelude::*;
use crate::provider::{
    default_base_url, full_url, managed_login, query_string, wire_of_token, wire_token, CodexAuth,
    ModelProviderInfo, WireApi,
};

verus! {

/// For a provider speaking the Chat protocol, the URL ends with
/// `/chat/completions` followed by the query string, whatever its other fields.
pub proof fn lemma_chat_url_suffix(p: ModelProviderInfo, auth: Option<CodexAuth>)
    requires
        p.wire_api == WireApi::Chat,
    ensures
        ({
            let u = full_url(p, auth);
            let t = "/chat/completions"@ + query_string(p);
            u.len() >= t.len() && u.subrange(u.len() - t.len(), u.len() as int) == t
        }),
{
    let u = full_url(p, auth);
    let t = "/chat/completions"@ + query_string(p);
    let b = crate::provider::effective_base_url(p, auth);
    assert(u =~= b + t);
    assert(u.subrange(u.len() - t.len(), u.len() as int) =~= t);
}

/// For a Responses provider without a base URL, the URL is rooted at the
/// managed backend under a managed login and at the public API host otherwise.
pub proof fn lemma_responses_default_host(p: ModelProviderInfo, auth: Option<CodexAuth>)
    requires
        p.wire_api == WireApi::Responses,
        p.base_url is None,
    ensures
        managed_login(auth) ==> full_url(p, auth) == "https://chatgpt.com/backend-api/codex"@
            + "/responses"@ + query_string(p),
        !managed_login(auth) ==> full_url(p, auth) == "https://api.openai.com/v1"@ + "/responses"@
            + query_string(p),
{
    assert(full_url(p, auth) == default_base_url(auth) + "/responses"@ + query_string(p));
}

/// The configuration token of a wire protocol reads back as that protocol.
pub proof fn lemma_wire_token_round_trip(w: WireApi)
    ensures
        wire_of_token(wire_token(w)) == Some(w),
{
    reveal_strlit("responses");
    reveal_strlit("chat");
    reveal_strlit("google_genai");
    reveal_strlit("anthropic_messages");
    assert("responses"@[0] != "chat"@[0]);
    assert("google_genai"@[0] != "chat"@[0] && "google_genai"@[0] != "responses"@[0]);
    assert("anthropic_messages"@[0] != "chat"@[0] && "anthropic_messages"@[0] != "responses"@[0]
        && "anthropic_messages"@[0] != "google_genai"@[0]);
}

} // verus!
