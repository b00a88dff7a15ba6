//! Request shaping and response extraction for OpenAI-compatible APIs.
//!
//! The rewrite step talks to a provider over HTTP. The transport lives
//! outside the library; what is decided here is exact: which URL a request
//! goes to, which headers it carries for which provider, and what content a
//! parsed response yields.

use vstd::prelude::*;
use vstd::string::*;

use crate::text::{drop_trailing_char, trim_end_char};

verus! {

/// The chat-completions endpoint under a base URL, trailing slashes folded.
pub open spec fn chat_completions_url_model(base: Seq<char>) -> Seq<char> {
    drop_trailing_char(base, '/') + "/chat/completions"@
}

/// The models endpoint under a base URL, trailing slashes folded.
pub open spec fn models_url_model(base: Seq<char>) -> Seq<char> {
    drop_trailing_char(base, '/') + "/models"@
}

/// Builds the chat-completions URL for a provider base URL.
pub fn chat_completions_url(base_url: &str) -> (r: String)
    ensures
        r@ == chat_completions_url_model(base_url@),
{
    let mut out = trim_end_char(base_url, '/');
    out.append("/chat/completions");
    out
}

/// Builds the model-list URL for a provider base URL.
pub fn models_url(base_url: &str) -> (r: String)
    ensures
        r@ == models_url_model(base_url@),
{
    let mut out = trim_end_char(base_url, '/');
    out.append("/models");
    out
}

/// The headers a request carries. Every request sends the four common
/// headers. With a non-empty API key, Anthropic authenticates through
/// `x-api-key` plus a pinned `anthropic-version`; every other provider gets
/// a bearer `authorization` header. An empty key adds nothing.
pub open spec fn header_pairs_model(provider_id: Seq<char>, api_key: Seq<char>) -> Seq<
    (Seq<char>, Seq<char>),
> {
    let common = seq![
        ("content-type"@, "application/json"@),
        ("referer"@, "https://github.com/divnjl2/voice-input"@),
        ("user-agent"@, "VoiceInput/1.0 (+https://github.com/divnjl2/voice-input)"@),
        ("x-title"@, "Voice Input"@),
    ];
    if api_key.len() == 0 {
        common
    } else if provider_id == "anthropic"@ {
        common + seq![("x-api-key"@, api_key), ("anthropic-version"@, "2023-06-01"@)]
    } else {
        common + seq![("authorization"@, "Bearer "@ + api_key)]
    }
}

/// Builds the header list for a provider and API key.
pub fn build_header_pairs(provider_id: &str, api_key: &str) -> (r: Vec<(String, String)>)
    ensures
        r@.map_values(|p: (String, String)| (p.0@, p.1@)) == header_pairs_model(
            provider_id@,
            api_key@,
        ),
{
    let mut out: Vec<(String, String)> = Vec::new();
    out.push(("content-type".to_owned(), "application/json".to_owned()));
    out.push(("referer".to_owned(), "https://github.com/divnjl2/voice-input".to_owned()));
    out.push(
        (
            "user-agent".to_owned(),
            "VoiceInput/1.0 (+https://github.com/divnjl2/voice-input)".to_owned(),
        ),
    );
    out.push(("x-title".to_owned(), "Voice Input".to_owned()));
    if !api_key.is_empty() {
        let anthropic: String = "anthropic".to_owned();
        let id: String = provider_id.to_owned();
        if id == anthropic {
            out.push(("x-api-key".to_owned(), api_key.to_owned()));
            out.push(("anthropic-version".to_owned(), "2023-06-01".to_owned()));
        } else {
            let mut bearer: String = "Bearer ".to_owned();
            bearer.append(api_key);
            out.push(("authorization".to_owned(), bearer));
        }
    }
    proof {
        assert(out@.map_values(|p: (String, String)| (p.0@, p.1@)) =~= header_pairs_model(
            provider_id@,
            api_key@,
        ));
    }
    out
}

/// The content of the first choice of a chat response, if there is one.
pub fn extract_chat_content(choices: &Vec<Option<String>>) -> (r: Option<String>)
    ensures
        choices@.len() == 0 ==> r is None,
        choices@.len() > 0 ==> match choices@[0] {
            Some(c) => r matches Some(x) && x@ == c@,
            None => r is None,
        },
{
    if choices.len() == 0 {
        return None;
    }
    match &choices[0] {
        Some(c) => Some(c.clone()),
        None => None,
    }
}

/// One entry of a provider's model list, as plain data: OpenAI-style
/// entries carry an `id`, some providers a `name` instead.
pub struct ModelEntry {
    pub id: Option<String>,
    pub name: Option<String>,
}

impl View for ModelEntry {
    type V = (Option<Seq<char>>, Option<Seq<char>>);

    open spec fn view(&self) -> (Option<Seq<char>>, Option<Seq<char>>) {
        (
            match self.id {
                Some(ref s) => Some(s@),
                None => None,
            },
            match self.name {
                Some(ref s) => Some(s@),
                None => None,
            },
        )
    }
}

/// The model ids of the first `i` entries: each entry contributes its id,
/// else its name, else nothing.
pub open spec fn model_ids_upto(entries: Seq<(Option<Seq<char>>, Option<Seq<char>>)>, i: int) -> Seq<
    Seq<char>,
>
    decreases i,
{
    if i <= 0 {
        Seq::empty()
    } else {
        let prev = model_ids_upto(entries, i - 1);
        match entries[i - 1].0 {
            Some(id) => prev.push(id),
            None => match entries[i - 1].1 {
                Some(name) => prev.push(name),
                None => prev,
            },
        }
    }
}

/// The model ids of a parsed model list.
pub open spec fn model_ids_of(entries: Seq<(Option<Seq<char>>, Option<Seq<char>>)>) -> Seq<
    Seq<char>,
> {
    model_ids_upto(entries, entries.len() as int)
}

/// Collects the model ids of a parsed model list, preferring `id` over
/// `name` and skipping entries that carry neither.
pub fn extract_model_ids(entries: &Vec<ModelEntry>) -> (r: Vec<String>)
    ensures
        r@.map_values(|s: String| s@) == model_ids_of(entries@.map_values(|e: ModelEntry| e@)),
{
    let ghost m = entries@.map_values(|e: ModelEntry| e@);
    let mut out: Vec<String> = Vec::new();
    let mut i: usize = 0;
    while i < entries.len()
        invariant
            m == entries@.map_values(|e: ModelEntry| e@),
            i <= entries@.len(),
            out@.map_values(|s: String| s@) == model_ids_upto(m, i as int),
        decreases entries@.len() - i,
    {
        match &entries[i].id {
            Some(id) => {
                out.push(id.clone());
            },
            None => {
                match &entries[i].name {
                    Some(name) => {
                        out.push(name.clone());
                    },
                    None => {},
                }
            },
        }
        proof {
            assert(out@.map_values(|s: String| s@) =~= model_ids_upto(m, i + 1));
        }
        i = i + 1;
    }
    out
}

} // verus!
