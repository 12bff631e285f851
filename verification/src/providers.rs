//! Provider call planning and dispatch.
//!
//! A plan is everything a backend call needs, computed from the provider
//! parameters and the conversation: the endpoint, the model, the message
//! payload (roles and contents only, no timestamps) and the request style.
//! The caller marshals the plan onto the wire and hands the response body —
//! or the stream of chunks — back to the library.

use vstd::prelude::*;

verus! {

use vstd::string::{StrSliceExecFns, StringExecFns};
use crate::errors::StreamError;
use crate::models::Message;
use crate::settings::ProviderParams;
use crate::strings::str_eq;

/// `s` without its trailing `/` characters.
pub open spec fn strip_trailing_slashes(s: Seq<char>) -> Seq<char>
    decreases s.len(),
{
    if s.len() > 0 && s.last() == '/' {
        strip_trailing_slashes(s.drop_last())
    } else {
        s
    }
}

proof fn lemma_strip_trailing_slashes(s: Seq<char>, k: int)
    requires
        0 <= k <= s.len(),
        forall|j: int| k <= j < s.len() ==> s[j] == '/',
        k == 0 || s[k - 1] != '/',
    ensures
        strip_trailing_slashes(s) == s.subrange(0, k),
    decreases s.len(),
{
    if s.len() == k {
        assert(strip_trailing_slashes(s) == s);
        assert(s.subrange(0, k) =~= s);
    } else {
        assert(s.last() == '/');
        lemma_strip_trailing_slashes(s.drop_last(), k);
        assert(s.drop_last().subrange(0, k) =~= s.subrange(0, k));
    }
}

/// `url` with trailing slashes removed.
fn strip_trailing(url: &str) -> (r: String)
    ensures
        r@ == strip_trailing_slashes(url@),
{
    let n = url.unicode_len();
    let mut k: usize = n;
    while k > 0 && url.get_char(k - 1) == '/'
        invariant
            k <= n,
            n == url@.len(),
            forall|j: int| k <= j < n ==> url@[j] == '/',
        decreases k,
    {
        k -= 1;
    }
    proof {
        lemma_strip_trailing_slashes(url@, k as int);
    }
    url.substring_char(0, k).to_owned()
}

/// `a` and `b` agree on roles and contents; `b` carries no timestamps and
/// every entry is complete, the shape handed to a backend.
pub open spec fn payload_rel(a: Seq<Message>, b: Seq<Message>) -> bool {
    &&& b.len() == a.len()
    &&& forall|i: int|
        0 <= i < a.len() ==> {
            &&& (#[trigger] b[i]).role == a[i].role
            &&& b[i].content == a[i].content
            &&& b[i].timestamp@ == Seq::<char>::empty()
            &&& b[i].complete == true
        }
}

/// The message payload of a backend call: roles and contents of the
/// conversation, timestamps dropped.
pub fn llm_payload(messages: &Vec<Message>) -> (r: Vec<Message>)
    ensures
        payload_rel(messages@, r@),
{
    let mut out: Vec<Message> = Vec::new();
    let mut i: usize = 0;
    while i < messages.len()
        invariant
            i <= messages@.len(),
            out@.len() == i,
            forall|j: int|
                0 <= j < i ==> {
                    &&& (#[trigger] out@[j]).role == messages@[j].role
                    &&& out@[j].content == messages@[j].content
                    &&& out@[j].timestamp@ == Seq::<char>::empty()
                    &&& out@[j].complete == true
                },
        decreases messages@.len() - i,
    {
        let m = &messages[i];
        out.push(
            Message {
                role: m.role.clone(),
                content: m.content.clone(),
                timestamp: String::new(),
                complete: true,
            },
        );
        i += 1;
    }
    out
}

/// A planned Ollama chat call.
#[derive(Debug)]
pub struct OllamaPlan {
    pub endpoint: String,
    pub model: String,
    pub messages: Vec<Message>,
    pub stream: bool,
}

/// Plan a call against an Ollama server: the endpoint is the configured URL
/// without trailing slashes, with `/api/chat` appended.
pub fn plan_ollama_call(url: &str, model: &str, messages: &Vec<Message>, stream: bool) -> (r:
    OllamaPlan)
    ensures
        r.endpoint@ == strip_trailing_slashes(url@) + "/api/chat"@,
        r.model@ == model@,
        payload_rel(messages@, r.messages@),
        r.stream == stream,
{
    OllamaPlan {
        endpoint: strip_trailing(url).concat("/api/chat"),
        model: model.to_owned(),
        messages: llm_payload(messages),
        stream,
    }
}

/// The models-listing endpoint of an Ollama server.
pub fn ollama_tags_endpoint(url: &str) -> (r: String)
    ensures
        r@ == strip_trailing_slashes(url@) + "/api/tags"@,
{
    strip_trailing(url).concat("/api/tags")
}

/// A planned OpenAI chat-completions call.
#[derive(Debug)]
pub struct OpenAiPlan {
    pub endpoint: String,
    pub model: String,
    pub messages: Vec<Message>,
    /// Include the `web_search_preview` tool.
    pub web_search_tool: bool,
    pub stream: bool,
}

/// Plan a call against OpenAI: rejected without an API key; with web search
/// enabled the model is `gpt-4o` and the search tool is included, otherwise
/// `gpt-4o-mini` without tools.
pub fn plan_openai_call(
    api_key: &str,
    web_search_enabled: bool,
    messages: &Vec<Message>,
    stream: bool,
) -> (r: Result<OpenAiPlan, StreamError>)
    ensures
        r is Ok <==> api_key@.len() > 0,
        (r matches Err(e) ==> e matches StreamError::Connection(m) && m@
            == "OpenAI API key is required"@),
        (r matches Ok(p) ==> {
            &&& p.endpoint@ == "https://api.openai.com/v1/chat/completions"@
            &&& (web_search_enabled ==> p.model@ == "gpt-4o"@)
            &&& (!web_search_enabled ==> p.model@ == "gpt-4o-mini"@)
            &&& payload_rel(messages@, p.messages@)
            &&& p.web_search_tool == web_search_enabled
            &&& p.stream == stream
        }),
{
    if url_is_empty(api_key) {
        return Result::Err(
            StreamError::Connection(String::from_str("OpenAI API key is required")),
        );
    }
    let model = if web_search_enabled {
        String::from_str("gpt-4o")
    } else {
        String::from_str("gpt-4o-mini")
    };
    Result::Ok(
        OpenAiPlan {
            endpoint: String::from_str("https://api.openai.com/v1/chat/completions"),
            model,
            messages: llm_payload(messages),
            web_search_tool: web_search_enabled,
            stream,
        },
    )
}

fn url_is_empty(s: &str) -> (r: bool)
    ensures
        r == (s@.len() == 0),
{
    s.unicode_len() == 0
}

/// A planned LM Studio call: the OpenAI-compatible endpoint under the
/// configured URL, no tools.
#[derive(Debug)]
pub struct LmStudioPlan {
    pub endpoint: String,
    pub model: String,
    pub messages: Vec<Message>,
}

pub fn plan_lmstudio_call(url: &str, model: &str, messages: &Vec<Message>) -> (r: LmStudioPlan)
    ensures
        r.endpoint@ == strip_trailing_slashes(url@) + "/v1/chat/completions"@,
        r.model@ == model@,
        payload_rel(messages@, r.messages@),
{
    LmStudioPlan {
        endpoint: strip_trailing(url).concat("/v1/chat/completions"),
        model: model.to_owned(),
        messages: llm_payload(messages),
    }
}

/// A planned Google call.
#[derive(Debug)]
pub struct GooglePlan {
    pub api_key: String,
    pub messages: Vec<Message>,
}

/// A planned call against a custom OpenAI-compatible backend.
#[derive(Debug)]
pub struct CustomPlan {
    pub endpoint: String,
    pub messages: Vec<Message>,
}

/// The content of the first choice of a non-streaming chat response; an
/// empty choice list is the "no response" error of the given backend.
pub fn first_choice_content(contents: &Vec<String>, backend: &str) -> (r: Result<
    String,
    StreamError,
>)
    ensures
        r is Ok <==> contents@.len() > 0,
        (r matches Ok(s) ==> s == contents@[0]),
        (r matches Err(e) ==> e matches StreamError::Parse(m) && m@ == "No response from "@
            + backend@),
{
    if contents.len() > 0 {
        Result::Ok(contents[0].clone())
    } else {
        Result::Err(StreamError::Parse(String::from_str("No response from ").concat(backend)))
    }
}

/// The configured providers.
#[derive(Debug, Clone, Copy, PartialEq, Eq, Structural)]
pub enum ProviderKind {
    Ollama,
    OpenAi,
    Google,
    LmStudio,
    Custom,
}

/// The provider a configured name denotes.
pub open spec fn spec_parse_provider(name: Seq<char>) -> Option<ProviderKind> {
    if name == "ollama"@ {
        Option::Some(ProviderKind::Ollama)
    } else if name == "openai"@ {
        Option::Some(ProviderKind::OpenAi)
    } else if name == "google"@ {
        Option::Some(ProviderKind::Google)
    } else if name == "lmstudio"@ {
        Option::Some(ProviderKind::LmStudio)
    } else if name == "custom"@ {
        Option::Some(ProviderKind::Custom)
    } else {
        Option::None
    }
}

pub fn parse_provider(name: &str) -> (r: Option<ProviderKind>)
    ensures
        r == spec_parse_provider(name@),
{
    if str_eq(name, "ollama") {
        Option::Some(ProviderKind::Ollama)
    } else if str_eq(name, "openai") {
        Option::Some(ProviderKind::OpenAi)
    } else if str_eq(name, "google") {
        Option::Some(ProviderKind::Google)
    } else if str_eq(name, "lmstudio") {
        Option::Some(ProviderKind::LmStudio)
    } else if str_eq(name, "custom") {
        Option::Some(ProviderKind::Custom)
    } else {
        Option::None
    }
}

/// One fully planned non-streaming call.
#[derive(Debug)]
pub enum CallPlan {
    Ollama(OllamaPlan),
    OpenAi(OpenAiPlan),
    Google(GooglePlan),
    LmStudio(LmStudioPlan),
    Custom(CustomPlan),
}

/// Dispatch one non-streaming call on the configured provider name. An
/// unknown name is rejected with the unknown-provider error.
pub fn plan_call(provider: &str, params: &ProviderParams, messages: &Vec<Message>) -> (r: Result<
    CallPlan,
    StreamError,
>)
    ensures
        r is Ok <==> (spec_parse_provider(provider@) is Some && (spec_parse_provider(provider@)
            == Option::Some(ProviderKind::OpenAi) ==> params.openai.api_key@.len() > 0)),
        (spec_parse_provider(provider@) is None ==> (r matches Err(e) && e
            matches StreamError::Connection(m) && m@ == "Unknown provider: "@ + provider@)),
        (r matches Ok(p) ==> match p {
            CallPlan::Ollama(pl) => {
                &&& spec_parse_provider(provider@) == Option::Some(ProviderKind::Ollama)
                &&& pl.endpoint@ == strip_trailing_slashes(params.ollama.url@) + "/api/chat"@
                &&& pl.model@ == params.ollama.model@
                &&& payload_rel(messages@, pl.messages@)
                &&& pl.stream == false
            },
            CallPlan::OpenAi(pl) => {
                &&& spec_parse_provider(provider@) == Option::Some(ProviderKind::OpenAi)
                &&& pl.endpoint@ == "https://api.openai.com/v1/chat/completions"@
                &&& (params.openai.web_search_enabled ==> pl.model@ == "gpt-4o"@)
                &&& (!params.openai.web_search_enabled ==> pl.model@ == "gpt-4o-mini"@)
                &&& payload_rel(messages@, pl.messages@)
                &&& pl.web_search_tool == params.openai.web_search_enabled
                &&& pl.stream == false
            },
            CallPlan::Google(pl) => {
                &&& spec_parse_provider(provider@) == Option::Some(ProviderKind::Google)
                &&& pl.api_key == params.google.api_key
                &&& payload_rel(messages@, pl.messages@)
            },
            CallPlan::LmStudio(pl) => {
                &&& spec_parse_provider(provider@) == Option::Some(ProviderKind::LmStudio)
                &&& pl.endpoint@ == strip_trailing_slashes(params.lmstudio.url@)
                    + "/v1/chat/completions"@
                &&& pl.model@ == params.lmstudio.model@
                &&& payload_rel(messages@, pl.messages@)
            },
            CallPlan::Custom(pl) => {
                &&& spec_parse_provider(provider@) == Option::Some(ProviderKind::Custom)
                &&& pl.endpoint == params.custom.url
                &&& payload_rel(messages@, pl.messages@)
            },
        }),
{
    match parse_provider(provider) {
        Option::Some(ProviderKind::Ollama) => Result::Ok(
            CallPlan::Ollama(
                plan_ollama_call(
                    params.ollama.url.as_str(),
                    params.ollama.model.as_str(),
                    messages,
                    false,
                ),
            ),
        ),
        Option::Some(ProviderKind::OpenAi) => match plan_openai_call(
            params.openai.api_key.as_str(),
            params.openai.web_search_enabled,
            messages,
            false,
        ) {
            Result::Ok(pl) => Result::Ok(CallPlan::OpenAi(pl)),
            Result::Err(e) => Result::Err(e),
        },
        Option::Some(ProviderKind::Google) => Result::Ok(
            CallPlan::Google(
                GooglePlan {
                    api_key: params.google.api_key.clone(),
                    messages: llm_payload(messages),
                },
            ),
        ),
        Option::Some(ProviderKind::LmStudio) => Result::Ok(
            CallPlan::LmStudio(
                plan_lmstudio_call(
                    params.lmstudio.url.as_str(),
                    params.lmstudio.model.as_str(),
                    messages,
                ),
            ),
        ),
        Option::Some(ProviderKind::Custom) => Result::Ok(
            CallPlan::Custom(
                CustomPlan {
                    endpoint: params.custom.url.clone(),
                    messages: llm_payload(messages),
                },
            ),
        ),
        Option::None => Result::Err(
            StreamError::Connection(String::from_str("Unknown provider: ").concat(provider)),
        ),
    }
}

/// One fully planned streaming call. Streaming exists for Ollama and OpenAI
/// only.
#[derive(Debug)]
pub enum StreamPlan {
    Ollama(OllamaPlan),
    OpenAi(OpenAiPlan),
}

/// Dispatch one streaming call on the configured provider name. Providers
/// without a streaming adapter are rejected with the not-implemented error.
pub fn plan_stream(provider: &str, params: &ProviderParams, messages: &Vec<Message>) -> (r: Result<
    StreamPlan,
    StreamError,
>)
    ensures
        r is Ok <==> (spec_parse_provider(provider@) == Option::Some(ProviderKind::Ollama) || (
        spec_parse_provider(provider@) == Option::Some(ProviderKind::OpenAi)
            && params.openai.api_key@.len() > 0)),
        (!(spec_parse_provider(provider@) == Option::Some(ProviderKind::Ollama))
            && !(spec_parse_provider(provider@) == Option::Some(ProviderKind::OpenAi))
            ==> (r matches Err(e) && e matches StreamError::Connection(m) && m@
            == "Streaming not yet implemented for provider: "@ + provider@)),
        (r matches Ok(p) ==> match p {
            StreamPlan::Ollama(pl) => {
                &&& spec_parse_provider(provider@) == Option::Some(ProviderKind::Ollama)
                &&& pl.endpoint@ == strip_trailing_slashes(params.ollama.url@) + "/api/chat"@
                &&& pl.model@ == params.ollama.model@
                &&& payload_rel(messages@, pl.messages@)
                &&& pl.stream == true
            },
            StreamPlan::OpenAi(pl) => {
                &&& spec_parse_provider(provider@) == Option::Some(ProviderKind::OpenAi)
                &&& pl.endpoint@ == "https://api.openai.com/v1/chat/completions"@
                &&& (params.openai.web_search_enabled ==> pl.model@ == "gpt-4o"@)
                &&& (!params.openai.web_search_enabled ==> pl.model@ == "gpt-4o-mini"@)
                &&& payload_rel(messages@, pl.messages@)
                &&& pl.web_search_tool == params.openai.web_search_enabled
                &&& pl.stream == true
            },
        }),
{
    match parse_provider(provider) {
        Option::Some(ProviderKind::Ollama) => Result::Ok(
            StreamPlan::Ollama(
                plan_ollama_call(
                    params.ollama.url.as_str(),
                    params.ollama.model.as_str(),
                    messages,
                    true,
                ),
            ),
        ),
        Option::Some(ProviderKind::OpenAi) => match plan_openai_call(
            params.openai.api_key.as_str(),
            params.openai.web_search_enabled,
            messages,
            true,
        ) {
            Result::Ok(pl) => Result::Ok(StreamPlan::OpenAi(pl)),
            Result::Err(e) => Result::Err(e),
        },
        _ => Result::Err(
            StreamError::Connection(
                String::from_str("Streaming not yet implemented for provider: ").concat(provider),
            ),
        ),
    }
}

} // verus!
