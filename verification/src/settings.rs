//! Read-only settings snapshot.
//!
//! The engine never persists settings; the surrounding application hands it
//! a plain snapshot of what the current session needs: input mode,
//! microphone mode, language, whether voice commands are enabled, and the
//! post-processing configuration (provider, per-provider model and API key,
//! prompt templates and the selected prompt).

use vstd::prelude::*;
use vstd::string::*;

verus! {

/// An LLM provider endpoint the rewrite step can talk to.
pub struct PostProcessProvider {
    /// Stable identifier, e.g. `openai` or `anthropic`.
    pub id: String,
    /// Base URL of the provider's OpenAI-compatible API.
    pub base_url: String,
}

impl View for PostProcessProvider {
    type V = (Seq<char>, Seq<char>);

    open spec fn view(&self) -> (Seq<char>, Seq<char>) {
        (self.id@, self.base_url@)
    }
}

/// A rewrite prompt template. The template text carries a substitution token
/// that the transcription replaces.
pub struct PromptTemplate {
    pub id: String,
    pub prompt: String,
}

impl View for PromptTemplate {
    type V = (Seq<char>, Seq<char>);

    open spec fn view(&self) -> (Seq<char>, Seq<char>) {
        (self.id@, self.prompt@)
    }
}

/// The settings snapshot a session runs under.
pub struct AppSettings {
    /// Push-to-talk when true, toggle mode when false.
    pub push_to_talk: bool,
    /// Whether the microphone stream runs continuously.
    pub always_on_microphone: bool,
    /// Selected transcription language code, e.g. `en` or `zh-Hans`.
    pub selected_language: String,
    /// Whether final text is checked against the voice-command table.
    pub voice_commands_enabled: bool,
    /// The active post-processing provider, if one is selected.
    pub post_process_provider: Option<PostProcessProvider>,
    /// Model id per provider id.
    pub post_process_models: Vec<(String, String)>,
    /// API key per provider id.
    pub post_process_api_keys: Vec<(String, String)>,
    /// All configured prompt templates.
    pub post_process_prompts: Vec<PromptTemplate>,
    /// Which prompt template the rewrite uses, if any.
    pub post_process_selected_prompt_id: Option<String>,
}

/// First value stored under `key`, if any.
pub open spec fn assoc_value<V>(s: Seq<(Seq<char>, V)>, key: Seq<char>) -> Option<V>
    decreases s.len(),
{
    if s.len() == 0 {
        None
    } else if s[0].0 == key {
        Some(s[0].1)
    } else {
        assoc_value(s.drop_first(), key)
    }
}

pub proof fn lemma_assoc_value_found<V>(s: Seq<(Seq<char>, V)>, key: Seq<char>, j: int)
    requires
        0 <= j < s.len(),
        s[j].0 == key,
        forall|k: int| 0 <= k < j ==> s[k].0 != key,
    ensures
        assoc_value(s, key) == Some(s[j].1),
    decreases j,
{
    if j > 0 {
        lemma_assoc_value_found(s.drop_first(), key, j - 1);
    }
}

pub proof fn lemma_assoc_value_missing<V>(s: Seq<(Seq<char>, V)>, key: Seq<char>)
    requires
        forall|k: int| 0 <= k < s.len() ==> s[k].0 != key,
    ensures
        assoc_value(s, key) is None,
    decreases s.len(),
{
    if s.len() > 0 {
        lemma_assoc_value_missing(s.drop_first(), key);
    }
}

/// Looks `key` up in a string-to-string association list and clones the
/// first value found.
pub fn assoc_get(list: &Vec<(String, String)>, key: &String) -> (r: Option<String>)
    ensures
        match assoc_value(list@.map_values(|p: (String, String)| (p.0@, p.1@)), key@) {
            Some(v) => r matches Some(x) && x@ == v,
            None => r is None,
        },
{
    let ghost m = list@.map_values(|p: (String, String)| (p.0@, p.1@));
    let mut i: usize = 0;
    while i < list.len()
        invariant
            m == list@.map_values(|p: (String, String)| (p.0@, p.1@)),
            i <= list@.len(),
            forall|k: int| 0 <= k < i ==> m[k].0 != key@,
        decreases list@.len() - i,
    {
        if list[i].0 == *key {
            proof {
                lemma_assoc_value_found(m, key@, i as int);
            }
            return Some(list[i].1.clone());
        }
        i = i + 1;
    }
    proof {
        lemma_assoc_value_missing(m, key@);
    }
    None
}

/// The prompt text of the template with id `key`, if one exists.
pub fn find_prompt(list: &Vec<PromptTemplate>, key: &String) -> (r: Option<String>)
    ensures
        match assoc_value(list@.map_values(|p: PromptTemplate| p@), key@) {
            Some(v) => r matches Some(x) && x@ == v,
            None => r is None,
        },
{
    let ghost m = list@.map_values(|p: PromptTemplate| p@);
    let mut i: usize = 0;
    while i < list.len()
        invariant
            m == list@.map_values(|p: PromptTemplate| p@),
            i <= list@.len(),
            forall|k: int| 0 <= k < i ==> m[k].0 != key@,
        decreases list@.len() - i,
    {
        if list[i].id == *key {
            proof {
                lemma_assoc_value_found(m, key@, i as int);
            }
            return Some(list[i].prompt.clone());
        }
        i = i + 1;
    }
    proof {
        lemma_assoc_value_missing(m, key@);
    }
    None
}

} // verus!
