//! Post-processing pipeline: script conversion and LLM-rewrite planning.
//!
//! Two ordered, optional stages refine a finished transcription. Script
//! conversion rewrites text between the Simplified and Traditional variants
//! of Chinese when one of the two is the selected language; it runs here,
//! through the OpenCC ruleset. The LLM rewrite is planned here — provider,
//! model, prompt and the substituted prompt text — but the request itself is
//! I/O and runs outside; the library then accepts the response, strips known
//! invisible Unicode marks, and assembles the final result. Neither stage is
//! ever fatal: whatever fails leaves the prior text in place. The planning
//! covers providers spoken to over HTTP; a provider served by a platform
//! API instead — an on-device model behind a system framework — is the
//! surrounding application's concern, outside this library.

use vstd::prelude::*;
use vstd::string::*;

use crate::settings::{assoc_get, assoc_value, find_prompt, AppSettings, PromptTemplate};
use crate::text::{push_char, replace_seq, replace_str, trim_seq, trim_str};

verus! {

/// What Traditional-to-Simplified conversion (the `tw2sp` OpenCC ruleset)
/// produces for a text. The rewrite is a function of the input text alone.
pub uninterp spec fn tw2sp_of(s: Seq<char>) -> Seq<char>;

/// What Simplified-to-Traditional conversion (the `s2twp` OpenCC ruleset)
/// produces for a text. The rewrite is a function of the input text alone.
pub uninterp spec fn s2twp_of(s: Seq<char>) -> Seq<char>;

/// Relies on ferrous_opencc's `OpenCC::from_config(BuiltinConfig::Tw2sp)`
/// and `OpenCC::convert`: the ruleset rewrites the text through a fixed
/// dictionary chain, so the output depends on the input text alone. The
/// configuration and its dictionaries are compiled into the crate and
/// always load — `from_config` fails only for names missing from the
/// embedded set — so the conversion always returns.
#[verifier::external_body]
fn convert_tw2sp(text: &str) -> (r: Option<String>)
    ensures
        r is Some,
        r matches Some(t) ==> t@ == tw2sp_of(text@),
{
    match ferrous_opencc::OpenCC::from_config(ferrous_opencc::config::BuiltinConfig::Tw2sp) {
        Ok(converter) => Some(converter.convert(text)),
        Err(_) => None,
    }
}

/// Relies on ferrous_opencc's `OpenCC::from_config(BuiltinConfig::S2twp)`
/// and `OpenCC::convert`: the ruleset rewrites the text through a fixed
/// dictionary chain, so the output depends on the input text alone. The
/// configuration and its dictionaries are compiled into the crate and
/// always load — `from_config` fails only for names missing from the
/// embedded set — so the conversion always returns.
#[verifier::external_body]
fn convert_s2twp(text: &str) -> (r: Option<String>)
    ensures
        r is Some,
        r matches Some(t) ==> t@ == s2twp_of(text@),
{
    match ferrous_opencc::OpenCC::from_config(ferrous_opencc::config::BuiltinConfig::S2twp) {
        Ok(converter) => Some(converter.convert(text)),
        Err(_) => None,
    }
}

/// Whether the selected language is one of the two script variants that
/// trigger conversion.
pub open spec fn needs_script_conversion(lang: Seq<char>) -> bool {
    lang == "zh-Hans"@ || lang == "zh-Hant"@
}

/// Whether script conversion would run for these settings, without doing it.
pub fn maybe_needs_chinese_conversion(settings: &AppSettings) -> (r: bool)
    ensures
        r == needs_script_conversion(settings.selected_language@),
{
    let hans: String = "zh-Hans".to_owned();
    let hant: String = "zh-Hant".to_owned();
    settings.selected_language == hans || settings.selected_language == hant
}

/// Converts between the Chinese script variants when the selected language
/// asks for it: `zh-Hans` converts Traditional to Simplified, `zh-Hant`
/// Simplified to Traditional. Any other language returns `None`.
pub fn maybe_convert_chinese_variant(settings: &AppSettings, transcription: &str) -> (r: Option<
    String,
>)
    ensures
        !needs_script_conversion(settings.selected_language@) ==> r is None,
        settings.selected_language@ == "zh-Hans"@ ==> (r matches Some(t) && t@ == tw2sp_of(
            transcription@,
        )),
        settings.selected_language@ == "zh-Hant"@ ==> (r matches Some(t) && t@ == s2twp_of(
            transcription@,
        )),
{
    proof {
        reveal_strlit("zh-Hans");
        reveal_strlit("zh-Hant");
        assert("zh-Hans"@.len() == 7);
        assert("zh-Hans"@[6] == 's' && "zh-Hant"@[6] == 't');
        assert("zh-Hans"@ != "zh-Hant"@);
    }
    let hans: String = "zh-Hans".to_owned();
    let hant: String = "zh-Hant".to_owned();
    if settings.selected_language == hans {
        convert_tw2sp(transcription)
    } else if settings.selected_language == hant {
        convert_s2twp(transcription)
    } else {
        None
    }
}

/// Applies script conversion. Only the two designated language codes change
/// the text: under `zh-Hans` the result is the Traditional-to-Simplified
/// conversion, under `zh-Hant` the Simplified-to-Traditional one, keeping
/// the input only when the conversion of non-empty text degenerates to
/// nothing. Every other language leaves the text unchanged, and non-empty
/// text stays non-empty.
pub fn apply_script_conversion(settings: &AppSettings, text: &str) -> (r: String)
    ensures
        !needs_script_conversion(settings.selected_language@) ==> r@ == text@,
        settings.selected_language@ == "zh-Hans"@ ==> r@ == (if tw2sp_of(text@).len() == 0
            && text@.len() > 0 {
            text@
        } else {
            tw2sp_of(text@)
        }),
        settings.selected_language@ == "zh-Hant"@ ==> r@ == (if s2twp_of(text@).len() == 0
            && text@.len() > 0 {
            text@
        } else {
            s2twp_of(text@)
        }),
        text@.len() > 0 ==> r@.len() > 0,
{
    match maybe_convert_chinese_variant(settings, text) {
        Some(converted) => {
            if converted.as_str().is_empty() && !text.is_empty() {
                text.to_owned()
            } else {
                converted
            }
        },
        None => text.to_owned(),
    }
}

/// A fully prepared LLM rewrite request: where to send it, how to
/// authenticate, and the prompt with the transcription substituted in.
pub struct LlmRequest {
    pub provider_id: String,
    pub base_url: String,
    pub api_key: String,
    pub model: String,
    pub prompt: String,
}

/// The substitution token a prompt template carries.
pub open spec fn output_token() -> Seq<char> {
    "${output}"@
}

/// The prompt text selected by the settings, if the selected id resolves to
/// a configured template.
pub open spec fn spec_selected_prompt(s: AppSettings) -> Option<Seq<char>> {
    match s.post_process_selected_prompt_id {
        None => None,
        Some(pid) => assoc_value(
            s.post_process_prompts@.map_values(|p: PromptTemplate| p@),
            pid@,
        ),
    }
}

/// The model configured for the active provider, or empty.
pub open spec fn spec_provider_model(s: AppSettings) -> Seq<char> {
    match s.post_process_provider {
        None => Seq::empty(),
        Some(p) => match assoc_value(
            s.post_process_models@.map_values(|q: (String, String)| (q.0@, q.1@)),
            p.id@,
        ) {
            Some(m) => m,
            None => Seq::empty(),
        },
    }
}

/// The API key configured for the active provider, or empty.
pub open spec fn spec_provider_api_key(s: AppSettings) -> Seq<char> {
    match s.post_process_provider {
        None => Seq::empty(),
        Some(p) => match assoc_value(
            s.post_process_api_keys@.map_values(|q: (String, String)| (q.0@, q.1@)),
            p.id@,
        ) {
            Some(k) => k,
            None => Seq::empty(),
        },
    }
}

/// Whether the settings carry everything an LLM rewrite needs: an active
/// provider, a non-blank model, and a selected, configured, non-blank
/// prompt. Anything missing makes the rewrite a silent skip.
pub open spec fn llm_rewrite_configured(s: AppSettings) -> bool {
    &&& s.post_process_provider is Some
    &&& trim_seq(spec_provider_model(s)).len() > 0
    &&& spec_selected_prompt(s) matches Some(p) && trim_seq(p).len() > 0
}

/// Plans the LLM rewrite: returns the request to send when the settings are
/// complete, `None` — meaning skip, not failure — when any piece is missing.
/// The prompt of the request is the selected template with every occurrence
/// of the substitution token replaced by the transcription.
pub fn plan_llm_rewrite(settings: &AppSettings, transcription: &str) -> (r: Option<LlmRequest>)
    ensures
        r is Some <==> llm_rewrite_configured(*settings),
        r matches Some(req) ==> {
            &&& settings.post_process_provider matches Some(p) && req.provider_id@ == p.id@
                && req.base_url@ == p.base_url@
            &&& req.model@ == spec_provider_model(*settings)
            &&& req.api_key@ == spec_provider_api_key(*settings)
            &&& spec_selected_prompt(*settings) matches Some(t) && req.prompt@ == replace_seq(
                t,
                output_token(),
                transcription@,
            )
        },
{
    let provider = match &settings.post_process_provider {
        Some(p) => p,
        None => {
            return None;
        },
    };
    let model = match assoc_get(&settings.post_process_models, &provider.id) {
        Some(m) => m,
        None => String::new(),
    };
    if trim_str(model.as_str()).as_str().is_empty() {
        return None;
    }
    let prompt_id = match &settings.post_process_selected_prompt_id {
        Some(pid) => pid,
        None => {
            return None;
        },
    };
    let template = match find_prompt(&settings.post_process_prompts, prompt_id) {
        Some(t) => t,
        None => {
            return None;
        },
    };
    if trim_str(template.as_str()).as_str().is_empty() {
        return None;
    }
    let api_key = match assoc_get(&settings.post_process_api_keys, &provider.id) {
        Some(k) => k,
        None => String::new(),
    };
    proof {
        reveal_strlit("${output}");
    }
    let prompt = replace_str(template.as_str(), "${output}", transcription);
    Some(
        LlmRequest {
            provider_id: provider.id.clone(),
            base_url: provider.base_url.clone(),
            api_key,
            model,
            prompt,
        },
    )
}

/// Invisible Unicode marks some models insert: zero-width space, zero-width
/// non-joiner, zero-width joiner, byte-order mark.
pub open spec fn is_invisible_mark(c: char) -> bool {
    c == '\u{200B}' || c == '\u{200C}' || c == '\u{200D}' || c == '\u{FEFF}'
}

/// The first `i` characters of `s` with invisible marks removed.
pub open spec fn strip_marks_upto(s: Seq<char>, i: int) -> Seq<char>
    decreases i,
{
    if i <= 0 {
        Seq::empty()
    } else if is_invisible_mark(s[i - 1]) {
        strip_marks_upto(s, i - 1)
    } else {
        strip_marks_upto(s, i - 1).push(s[i - 1])
    }
}

/// `s` with every invisible mark removed.
pub open spec fn strip_invisible_marks(s: Seq<char>) -> Seq<char> {
    strip_marks_upto(s, s.len() as int)
}

/// Removes the invisible Unicode marks from an LLM response.
pub fn sanitize_llm_response(s: &str) -> (r: String)
    ensures
        r@ == strip_invisible_marks(s@),
{
    let n = s.unicode_len();
    let mut out = String::new();
    let mut i: usize = 0;
    while i < n
        invariant
            n == s@.len(),
            i <= n,
            out@ == strip_marks_upto(s@, i as int),
        decreases n - i,
    {
        let c = s.get_char(i);
        if !(c == '\u{200B}' || c == '\u{200C}' || c == '\u{200D}' || c == '\u{FEFF}') {
            push_char(&mut out, c);
        }
        i = i + 1;
    }
    out
}

/// What the outside LLM call came back with, as plain data.
pub enum ChatOutcome {
    /// The provider answered with message content.
    Content(String),
    /// The provider answered without content.
    NoContent,
    /// The request failed (transport, status, or parsing).
    RequestFailed(String),
}

/// Accepts an LLM response: the sanitized content when the call produced
/// any, `None` — keep the prior text — when the call failed, had no content,
/// or sanitized to nothing.
pub fn llm_rewrite_result(outcome: &ChatOutcome) -> (r: Option<String>)
    ensures
        match outcome {
            ChatOutcome::Content(c) => {
                if strip_invisible_marks(c@).len() > 0 {
                    r matches Some(t) && t@ == strip_invisible_marks(c@)
                } else {
                    r is None
                }
            },
            _ => r is None,
        },
{
    match outcome {
        ChatOutcome::Content(c) => {
            let cleaned = sanitize_llm_response(c.as_str());
            if cleaned.as_str().is_empty() {
                None
            } else {
                Some(cleaned)
            }
        },
        _ => None,
    }
}

/// The assembled outcome of post-processing.
pub struct PostProcessOutput {
    /// What the session injects or displays.
    pub final_text: String,
    /// What history records as the post-processed text, if any stage ran.
    pub post_processed_text: Option<String>,
    /// The raw prompt template used by the rewrite, for history.
    pub post_process_prompt: Option<String>,
}

/// Assembles the final text and the history fields from the transcription,
/// its script-converted form, and the rewrite result if one was obtained.
/// A rewrite wins; otherwise a conversion that changed the text is recorded;
/// otherwise the transcription stands as it is.
pub fn assemble_post_process_output(
    transcription: &str,
    converted: &String,
    llm_rewrite: &Option<String>,
    prompt_used: &Option<String>,
) -> (out: PostProcessOutput)
    ensures
        ({
            match llm_rewrite {
                Some(p) => {
                    &&& out.final_text@ == p@
                    &&& out.post_processed_text matches Some(t) && t@ == p@
                    &&& match prompt_used {
                        Some(q) => out.post_process_prompt matches Some(x) && x@ == q@,
                        None => out.post_process_prompt is None,
                    }
                },
                None => {
                    &&& out.post_process_prompt is None
                    &&& if converted@ != transcription@ {
                        &&& out.final_text@ == converted@
                        &&& out.post_processed_text matches Some(t) && t@ == converted@
                    } else {
                        &&& out.final_text@ == transcription@
                        &&& out.post_processed_text is None
                    }
                },
            }
        }),
{
    match llm_rewrite {
        Some(p) => PostProcessOutput {
            final_text: p.clone(),
            post_processed_text: Some(p.clone()),
            post_process_prompt: match prompt_used {
                Some(q) => Some(q.clone()),
                None => None,
            },
        },
        None => {
            let original = transcription.to_owned();
            if *converted != original {
                PostProcessOutput {
                    final_text: converted.clone(),
                    post_processed_text: Some(converted.clone()),
                    post_process_prompt: None,
                }
            } else {
                PostProcessOutput {
                    final_text: original,
                    post_processed_text: None,
                    post_process_prompt: None,
                }
            }
        },
    }
}

/// With no prompt selected, the rewrite is never configured: post-processing
/// can only hand back the (possibly script-converted) text unchanged, and no
/// request to an LLM exists to be sent.
pub proof fn lemma_no_prompt_means_no_rewrite(s: AppSettings)
    requires
        s.post_process_selected_prompt_id is None,
    ensures
        !llm_rewrite_configured(s),
{
}

} // verus!
