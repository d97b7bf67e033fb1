//! Speech settings and the choice of speech engine.
use vstd::prelude::*;
use vstd::string::*;
use crate::text::{str_eq, trim, trimmed};

verus! {

#[derive(Debug, Clone)]
pub struct VoiceInfo {
    pub id: String,
    pub name: String,
    pub language: Option<String>,
}

#[derive(Debug, Clone, Copy, PartialEq, Eq, Structural)]
pub enum TtsProviderKind {
    WebSpeech,
    WindowsSapi,
    Piper,
    Silent,
}

impl TtsProviderKind {
    /// Speech goes through the web view unless configured otherwise.
    pub fn default() -> (k: Self)
        ensures
            k == TtsProviderKind::WebSpeech,
    {
        TtsProviderKind::WebSpeech
    }
}

/// The Windows speech engine.
pub struct SapiSpeaker;

impl SapiSpeaker {
    pub fn new() -> (r: Result<Self, String>)
        ensures
            r is Ok,
    {
        Ok(SapiSpeaker)
    }
}

/// What a request to speak turns into.
#[derive(Debug, Clone)]
pub enum SpeakPlan {
    /// Nothing is spoken here (silent, handled by the web view, or blank text).
    Nothing,
    Sapi(String),
    Piper(String),
}

/// The engine in use is the one asked for, else the configured one. Silent
/// and web speech do nothing here, nor does blank text; otherwise the trimmed
/// text goes to the engine.
pub open spec fn speak_plan_matches(
    p: SpeakPlan,
    configured: TtsProviderKind,
    requested: Option<TtsProviderKind>,
    text: Seq<char>,
) -> bool {
    let provider = match requested {
        Some(r) => r,
        None => configured,
    };
    if provider == TtsProviderKind::Silent || provider == TtsProviderKind::WebSpeech
        || trimmed(text).len() == 0 {
        p is Nothing
    } else if provider == TtsProviderKind::WindowsSapi {
        p matches SpeakPlan::Sapi(t) && t@ == trimmed(text)
    } else {
        p matches SpeakPlan::Piper(t) && t@ == trimmed(text)
    }
}

pub fn plan_speech(configured: TtsProviderKind, requested: Option<TtsProviderKind>, text: &str) -> (p:
    SpeakPlan)
    ensures
        speak_plan_matches(p, configured, requested, text@),
{
    let provider = match requested {
        Some(r) => r,
        None => configured,
    };
    if provider == TtsProviderKind::Silent || provider == TtsProviderKind::WebSpeech {
        return SpeakPlan::Nothing;
    }
    let trimmed_text = trim(text);
    if trimmed_text.unicode_len() == 0 {
        return SpeakPlan::Nothing;
    }
    match provider {
        TtsProviderKind::WindowsSapi => SpeakPlan::Sapi(trimmed_text.to_string()),
        TtsProviderKind::Piper => SpeakPlan::Piper(trimmed_text.to_string()),
        _ => SpeakPlan::Nothing,
    }
}

/// Speech planned for Piper once it is known whether Piper can run: with its
/// program and its voice model found it speaks; otherwise the text falls back
/// to the system speech engine.
pub fn piper_or_fallback(text: String, binary_found: bool, model_found: bool) -> (p: SpeakPlan)
    ensures
        binary_found && model_found ==> p == SpeakPlan::Piper(text),
        !(binary_found && model_found) ==> p == SpeakPlan::Sapi(text),
{
    if binary_found && model_found {
        SpeakPlan::Piper(text)
    } else {
        SpeakPlan::Sapi(text)
    }
}

/// Where the list of voices of a provider comes from.
#[derive(Debug, Clone, Copy, PartialEq, Eq, Structural)]
pub enum VoiceSource {
    Sapi,
    Piper,
    NoVoices,
}

pub fn voice_source(provider: TtsProviderKind) -> (s: VoiceSource)
    ensures
        s == (match provider {
            TtsProviderKind::WindowsSapi => VoiceSource::Sapi,
            TtsProviderKind::Piper => VoiceSource::Piper,
            _ => VoiceSource::NoVoices,
        }),
{
    match provider {
        TtsProviderKind::WindowsSapi => VoiceSource::Sapi,
        TtsProviderKind::Piper => VoiceSource::Piper,
        _ => VoiceSource::NoVoices,
    }
}

/// Piper speaks with the one configured model.
pub fn piper_voices() -> (v: Vec<VoiceInfo>)
    ensures
        v@.len() == 1,
        v@[0].id@ == "piper-default"@,
        v@[0].name@ == "Piper (configured model)"@,
        v@[0].language matches Some(l) && l@ == "en"@,
{
    let mut v: Vec<VoiceInfo> = Vec::new();
    v.push(
        VoiceInfo {
            id: String::from_str("piper-default"),
            name: String::from_str("Piper (configured model)"),
            language: Some(String::from_str("en")),
        },
    );
    v
}

/// A system voice as listed: voices with neither id nor name are skipped, a
/// missing id is replaced by the name.
pub fn system_voice(id: String, name: String, language: String) -> (v: Option<VoiceInfo>)
    ensures
        id@.len() == 0 && name@.len() == 0 ==> v is None,
        !(id@.len() == 0 && name@.len() == 0) ==> (v matches Some(info) && info.id@ == (if id@.len()
            == 0 {
            name@
        } else {
            id@
        }) && info.name == name && info.language == Some(language)),
{
    if id.as_str().unicode_len() == 0 && name.as_str().unicode_len() == 0 {
        return None;
    }
    let voice_id = if id.as_str().unicode_len() == 0 {
        name.clone()
    } else {
        id
    };
    Some(VoiceInfo { id: voice_id, name, language: Some(language) })
}

/// Whether voice `i` is the one asked for: its id or its name is `wanted`.
pub open spec fn voice_is(ids: Seq<String>, names: Seq<String>, wanted: Seq<char>, i: int) -> bool {
    ids[i]@ == wanted || names[i]@ == wanted
}

/// The system voice to select for the configured voice: none when nothing is
/// configured, else the first voice whose id or name is the configured one.
pub fn find_voice(ids: &Vec<String>, names: &Vec<String>, wanted: &str) -> (r: Option<usize>)
    requires
        ids@.len() == names@.len(),
    ensures
        wanted@.len() == 0 ==> r is None,
        wanted@.len() > 0 ==> match r {
            Some(i) => i < ids@.len() && voice_is(ids@, names@, wanted@, i as int) && forall|j: int|
                0 <= j < i ==> !#[trigger] voice_is(ids@, names@, wanted@, j),
            None => forall|j: int|
                0 <= j < ids@.len() ==> !#[trigger] voice_is(ids@, names@, wanted@, j),
        },
{
    if wanted.unicode_len() == 0 {
        return None;
    }
    let n = ids.len();
    let mut i: usize = 0;
    while i < n
        invariant
            n == ids@.len(),
            n == names@.len(),
            wanted@.len() > 0,
            i <= n,
            forall|j: int| 0 <= j < i ==> !#[trigger] voice_is(ids@, names@, wanted@, j),
        decreases n - i,
    {
        if str_eq(ids[i].as_str(), wanted) || str_eq(names[i].as_str(), wanted) {
            return Some(i);
        }
        i = i + 1;
    }
    None
}

/// The configured Piper model path, trimmed; blank is an error.
pub fn piper_model_path(configured: &str) -> (r: Result<&str, String>)
    ensures
        trimmed(configured@).len() == 0 ==> (r matches Err(e) && e@
            == "Piper model path is not configured."@),
        trimmed(configured@).len() > 0 ==> (r matches Ok(p) && p@ == trimmed(configured@)),
{
    let p = trim(configured);
    if p.unicode_len() == 0 {
        Err(String::from_str("Piper model path is not configured."))
    } else {
        Ok(p)
    }
}

} // verus!
