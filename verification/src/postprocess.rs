//! The request that has a finished transcript rewritten by a language
//! model.
//!
//! The settings are read and the request is sent outside this library. Which
//! request is sent, if any, is decided here.

use vstd::prelude::*;
use vstd::string::StringExecFns;
use crate::settings::{LLMPrompt, PostProcessProvider};
use crate::strings::{
    find_in, first_occurrence_from, lemma_first_occurrence_from, occurs_at, str_eq, to_chars, trim,
    trimmed,
};

verus! {

/// What the settings say of the rewriting.
pub struct PostProcessSettings {
    /// Whether transcripts are rewritten at all.
    pub enabled: bool,
    /// The provider that rewrites.
    pub provider_id: String,
    /// The key for that provider, if one is stored.
    pub api_key: Option<String>,
    /// The model of that provider, if one is chosen.
    pub model: Option<String>,
    /// The address of that provider, if one is stored.
    pub base_url: Option<String>,
    /// The prompts to choose from.
    pub prompts: Vec<LLMPrompt>,
    /// The id of the chosen prompt, if one is chosen.
    pub selected_prompt_id: Option<String>,
}

/// A request to a provider.
pub struct PostProcessRequest {
    pub provider: PostProcessProvider,
    pub api_key: String,
    pub model: String,
    pub prompt_text: String,
}

/// The address of a provider that the settings give none for.
pub open spec fn default_base_url_text(provider_id: Seq<char>) -> Seq<char> {
    if provider_id == "openai"@ {
        "https://api.openai.com/v1"@
    } else if provider_id == "anthropic"@ {
        "https://api.anthropic.com/v1"@
    } else if provider_id == "openrouter"@ {
        "https://openrouter.ai/api/v1"@
    } else if provider_id == "groq"@ {
        "https://api.groq.com/openai/v1"@
    } else if provider_id == "cerebras"@ {
        "https://api.cerebras.ai/v1"@
    } else {
        "http://localhost:11434/v1"@
    }
}

/// The address of a provider that the settings give none for: the known
/// address of a known provider, a local one for any other.
pub fn default_base_url(provider_id: &str) -> (url: &'static str)
    ensures
        url@ == default_base_url_text(provider_id@),
{
    if str_eq(provider_id, "openai") {
        "https://api.openai.com/v1"
    } else if str_eq(provider_id, "anthropic") {
        "https://api.anthropic.com/v1"
    } else if str_eq(provider_id, "openrouter") {
        "https://openrouter.ai/api/v1"
    } else if str_eq(provider_id, "groq") {
        "https://api.groq.com/openai/v1"
    } else if str_eq(provider_id, "cerebras") {
        "https://api.cerebras.ai/v1"
    } else {
        "http://localhost:11434/v1"
    }
}

/// The provider with `provider_id`, at `base_url` or at its default
/// address. Only the provider `custom` may have its address changed.
pub fn get_provider(provider_id: &str, base_url: &Option<String>) -> (provider: PostProcessProvider)
    ensures
        provider.id@ == provider_id@,
        provider.label@ == provider_id@,
        provider.base_url@ == match *base_url {
            Some(url) => url@,
            None => default_base_url_text(provider_id@),
        },
        provider.allow_base_url_edit == (provider_id@ == "custom"@),
{
    let base_url = match base_url {
        Some(url) => url.clone(),
        None => String::from_str(default_base_url(provider_id)),
    };
    PostProcessProvider {
        id: String::from_str(provider_id),
        label: String::from_str(provider_id),
        base_url,
        allow_base_url_edit: str_eq(provider_id, "custom"),
    }
}

/// `s` from `from` on, with every occurrence of `pattern` replaced by
/// `with`, from left to right.
pub open spec fn replaced_from(s: Seq<char>, pattern: Seq<char>, with: Seq<char>, from: int) -> Seq<
    char,
>
    decreases s.len() - from,
{
    let at = first_occurrence_from(s, pattern, from);
    if pattern.len() == 0 || from < 0 || from > s.len() {
        Seq::empty()
    } else if from <= at <= s.len() - pattern.len() {
        s.subrange(from, at) + with + replaced_from(s, pattern, with, at + pattern.len())
    } else {
        s.subrange(from, s.len() as int)
    }
}

/// The prompt with `${output}` replaced by the transcript.
pub open spec fn filled_prompt(prompt: Seq<char>, text: Seq<char>) -> Seq<char> {
    replaced_from(prompt, "${output}"@, text, 0)
}

fn replace_text(s: &str, pattern: &str, with: &str) -> (out: String)
    requires
        pattern@.len() > 0,
    ensures
        out@ == replaced_from(s@, pattern@, with@, 0),
{
    let chars = to_chars(s);
    let pat = to_chars(pattern);
    let n = chars.len();
    let m = pat.len();
    let mut out = String::new();
    let mut from: usize = 0;
    loop
        invariant
            from <= n,
            n == chars@.len(),
            m == pat@.len(),
            m > 0,
            chars@ == s@,
            pat@ == pattern@,
            out@ + replaced_from(s@, pattern@, with@, from as int) == replaced_from(
                s@,
                pattern@,
                with@,
                0,
            ),
        decreases n - from,
    {
        proof {
            lemma_first_occurrence_from(s@, pattern@, from as int);
        }
        match find_in(&chars, &pat, from) {
            Some(at) => {
                proof {
                    assert(occurs_at(s@, pattern@, at as int));
                    assert((out@ + s@.subrange(from as int, at as int) + with@) + replaced_from(
                        s@,
                        pattern@,
                        with@,
                        at + m,
                    ) =~= out@ + (s@.subrange(from as int, at as int) + with@ + replaced_from(
                        s@,
                        pattern@,
                        with@,
                        at + m,
                    )));
                }
                out = out.concat(s.substring_char(from, at)).concat(with);
                from = at + m;
            },
            None => {
                out = out.concat(s.substring_char(from, n));
                return out;
            },
        }
    }
}

/// The prompt with every `${output}` replaced by `text`.
pub fn fill_prompt(prompt: &str, text: &str) -> (filled: String)
    ensures
        filled@ == filled_prompt(prompt@, text@),
{
    proof {
        reveal_strlit("${output}");
    }
    replace_text(prompt, "${output}", text)
}

/// The index of the first prompt at or after `from` with the id `id`, or
/// the number of prompts.
pub open spec fn prompt_index_from(prompts: Seq<LLMPrompt>, id: Seq<char>, from: int) -> int
    decreases prompts.len() - from,
{
    if from < 0 || from >= prompts.len() {
        prompts.len() as int
    } else if prompts[from].id@ == id {
        from
    } else {
        prompt_index_from(prompts, id, from + 1)
    }
}

/// The index of the prompt that is used: the first one with the chosen id,
/// or the first one at all if none is chosen; the number of prompts if
/// there is no such prompt.
pub open spec fn chosen_prompt(prompts: Seq<LLMPrompt>, selected: Option<String>) -> int {
    match selected {
        Some(id) => prompt_index_from(prompts, id@, 0),
        None => 0,
    }
}

/// Whether the settings allow for a request: rewriting is enabled, a key
/// and a model are stored and not empty, and a prompt is found.
pub open spec fn can_post_process(settings: PostProcessSettings) -> bool {
    &&& settings.enabled
    &&& settings.api_key matches Some(key) && key@.len() > 0
    &&& settings.model matches Some(model) && model@.len() > 0
    &&& 0 <= chosen_prompt(settings.prompts@, settings.selected_prompt_id) < settings.prompts@.len()
}

fn prompt_index(prompts: &Vec<LLMPrompt>, id: &str) -> (index: usize)
    ensures
        index == prompt_index_from(prompts@, id@, 0),
        index <= prompts@.len(),
{
    let n = prompts.len();
    let mut i: usize = 0;
    while i < n
        invariant
            i <= n,
            n == prompts@.len(),
            prompt_index_from(prompts@, id@, i as int) == prompt_index_from(prompts@, id@, 0),
        decreases n - i,
    {
        if str_eq(prompts[i].id.as_str(), id) {
            return i;
        }
        i = i + 1;
    }
    n
}

fn find_prompt(prompts: &Vec<LLMPrompt>, selected: &Option<String>) -> (index: usize)
    ensures
        index == chosen_prompt(prompts@, *selected),
{
    match selected {
        None => 0,
        Some(id) => prompt_index(prompts, id.as_str()),
    }
}

/// Builds the request that rewrites `text`, if the settings allow for one:
/// to the chosen provider, with its key and model, and with the chosen
/// prompt, in which the transcript takes the place of `${output}`.
pub fn build_post_process_request(text: &str, settings: &PostProcessSettings) -> (request: Option<
    PostProcessRequest,
>)
    ensures
        request.is_some() == can_post_process(*settings),
        request matches Some(r) ==> {
            &&& r.provider.id@ == settings.provider_id@
            &&& r.provider.label@ == settings.provider_id@
            &&& r.provider.base_url@ == match settings.base_url {
                Some(url) => url@,
                None => default_base_url_text(settings.provider_id@),
            }
            &&& r.provider.allow_base_url_edit == (settings.provider_id@ == "custom"@)
            &&& r.api_key@ == settings.api_key.unwrap()@
            &&& r.model@ == settings.model.unwrap()@
            &&& r.prompt_text@ == filled_prompt(
                settings.prompts@[chosen_prompt(settings.prompts@, settings.selected_prompt_id)].prompt@,
                text@,
            )
        },
{
    if !settings.enabled {
        return None;
    }
    let api_key = match &settings.api_key {
        Some(key) => key.clone(),
        None => {
            return None;
        },
    };
    if api_key.as_str().is_empty() {
        return None;
    }
    let model = match &settings.model {
        Some(model) => model.clone(),
        None => {
            return None;
        },
    };
    if model.as_str().is_empty() {
        return None;
    }
    let index = find_prompt(&settings.prompts, &settings.selected_prompt_id);
    if index >= settings.prompts.len() {
        return None;
    }
    let provider = get_provider(settings.provider_id.as_str(), &settings.base_url);
    let prompt_text = fill_prompt(settings.prompts[index].prompt.as_str(), text);
    Some(PostProcessRequest { provider, api_key, model, prompt_text })
}

/// What is made of the provider's answer: the answer, trimmed, unless
/// there is none or it is blank.
pub fn post_processed_text(reply: &Option<String>) -> (text: Option<String>)
    ensures
        text.is_some() == (*reply matches Some(r) && trimmed(r@).len() > 0),
        text matches Some(t) ==> t@ == trimmed(reply.unwrap()@),
{
    match reply {
        Some(processed) => {
            let trimmed_text = trim(processed.as_str());
            if trimmed_text.is_empty() {
                None
            } else {
                Some(String::from_str(trimmed_text))
            }
        },
        None => None,
    }
}

} // verus!
