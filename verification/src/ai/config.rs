//! AI provider settings, provider selection, API-key resolution and the
//! handling of what a provider replied.
use vstd::prelude::*;
use vstd::string::*;
use crate::text::{
    clean_text, cleaned, is_ws, lemma_trim_fixed, lemma_trim_idempotent, str_eq, trim, trimmed,
};

verus! {

#[derive(Debug, Clone, Copy, PartialEq, Eq, Structural)]
pub enum AiProviderKind {
    Disabled,
    Groq,
    Gemini,
    Ollama,
}

pub open spec fn provider_name(kind: AiProviderKind) -> Seq<char> {
    match kind {
        AiProviderKind::Disabled => "none"@,
        AiProviderKind::Groq => "groq"@,
        AiProviderKind::Gemini => "gemini"@,
        AiProviderKind::Ollama => "ollama"@,
    }
}

pub open spec fn default_model_name(kind: AiProviderKind) -> Seq<char> {
    match kind {
        AiProviderKind::Disabled => ""@,
        AiProviderKind::Groq => "llama3-8b-8192"@,
        AiProviderKind::Gemini => "gemini-2.0-flash"@,
        AiProviderKind::Ollama => "llama3"@,
    }
}

impl AiProviderKind {
    /// Groq is the provider of a fresh installation.
    pub fn default() -> (kind: Self)
        ensures
            kind == AiProviderKind::Groq,
    {
        AiProviderKind::Groq
    }

    pub fn as_str(self) -> (s: &'static str)
        ensures
            s@ == provider_name(self),
    {
        match self {
            AiProviderKind::Disabled => "none",
            AiProviderKind::Groq => "groq",
            AiProviderKind::Gemini => "gemini",
            AiProviderKind::Ollama => "ollama",
        }
    }

    pub fn default_model(self) -> (s: &'static str)
        ensures
            s@ == default_model_name(self),
    {
        match self {
            AiProviderKind::Disabled => "",
            AiProviderKind::Groq => "llama3-8b-8192",
            AiProviderKind::Gemini => "gemini-2.0-flash",
            AiProviderKind::Ollama => "llama3",
        }
    }

    /// Groq and Gemini are reached with an API key.
    pub fn requires_api_key(self) -> (b: bool)
        ensures
            b == (self == AiProviderKind::Groq || self == AiProviderKind::Gemini),
    {
        match self {
            AiProviderKind::Groq | AiProviderKind::Gemini => true,
            _ => false,
        }
    }
}

/// The stored AI settings.
#[derive(Debug, Clone)]
pub struct StoredAiConfig {
    pub provider: AiProviderKind,
    pub model: String,
    pub ollama_base_url: String,
}

pub open spec fn default_base_url() -> Seq<char> {
    "http://localhost:11434"@
}

impl StoredAiConfig {
    pub fn default() -> (c: Self)
        ensures
            c.provider == AiProviderKind::Groq,
            c.model@ == default_model_name(AiProviderKind::Groq),
            c.ollama_base_url@ == default_base_url(),
    {
        StoredAiConfig {
            provider: AiProviderKind::Groq,
            model: String::from_str(AiProviderKind::Groq.default_model()),
            ollama_base_url: String::from_str("http://localhost:11434"),
        }
    }
}

#[derive(Debug, Clone)]
pub struct AiConfigResponse {
    pub provider: AiProviderKind,
    pub model: String,
    pub ollama_base_url: String,
    pub has_api_key: bool,
}

#[derive(Debug, Clone)]
pub struct SetAiConfigInput {
    pub provider: AiProviderKind,
    pub model: String,
    pub ollama_base_url: String,
    pub api_key: Option<String>,
}

#[derive(Debug, Clone)]
pub struct AiCompleteResponse {
    pub text: String,
    pub source: String,
}

#[derive(Debug, Clone)]
pub struct AiConnectionTestResult {
    pub ok: bool,
    pub message: String,
    pub model: String,
}

/// The model to use: the configured one, or the provider's default when the
/// configured one is blank.
pub open spec fn model_in_use(provider: AiProviderKind, model: Seq<char>) -> Seq<char> {
    if trimmed(model).len() == 0 {
        default_model_name(provider)
    } else {
        model
    }
}

pub fn effective_model(config: &StoredAiConfig) -> (m: String)
    ensures
        m@ == model_in_use(config.provider, config.model@),
{
    if trim(config.model.as_str()).unicode_len() == 0 {
        String::from_str(config.provider.default_model())
    } else {
        config.model.clone()
    }
}

/// Strips every trailing `/` from a base URL.
pub open spec fn without_trailing_slashes(s: Seq<char>) -> Seq<char>
    decreases s.len(),
{
    if s.len() > 0 && s.last() == '/' {
        without_trailing_slashes(s.drop_last())
    } else {
        s
    }
}

pub fn trim_trailing_slashes(s: &str) -> (r: &str)
    ensures
        r@ == without_trailing_slashes(s@),
{
    let mut j = s.unicode_len();
    assert(s@.subrange(0, j as int) =~= s@);
    while j > 0 && s.get_char(j - 1) == '/'
        invariant
            j <= s@.len(),
            without_trailing_slashes(s@) == without_trailing_slashes(s@.subrange(0, j as int)),
        decreases j,
    {
        proof {
            let t = s@.subrange(0, j as int);
            assert(t.drop_last() =~= s@.subrange(0, j - 1));
        }
        j = j - 1;
    }
    s.substring_char(0, j)
}

/// A provider ready to be called.
#[derive(Debug, Clone)]
pub enum ProviderPlan {
    Groq { api_key: String, model: String },
    Gemini { api_key: String, model: String },
    /// Ollama at `base_url` (trailing slashes removed).
    Ollama { base_url: String, model: String },
}

pub open spec fn usable_key(api_key: Option<String>) -> bool {
    api_key matches Some(k) && trimmed(k@).len() > 0
}

/// Which provider to call: none when none is configured, Groq and Gemini only
/// with a non-blank API key, Ollama at its base URL.
pub open spec fn plan_matches(
    r: Result<ProviderPlan, String>,
    config: StoredAiConfig,
    api_key: Option<String>,
) -> bool {
    let model = model_in_use(config.provider, config.model@);
    match config.provider {
        AiProviderKind::Disabled => r matches Err(e) && e@ == "No AI provider configured"@,
        AiProviderKind::Groq => if usable_key(api_key) {
            r matches Ok(ProviderPlan::Groq { api_key: k, model: m }) && Some(k) == api_key && m@
                == model
        } else {
            r matches Err(e) && e@ == "Groq API key is missing. Add one in AI settings."@
        },
        AiProviderKind::Gemini => if usable_key(api_key) {
            r matches Ok(ProviderPlan::Gemini { api_key: k, model: m }) && Some(k) == api_key && m@
                == model
        } else {
            r matches Err(e) && e@ == "Gemini API key is missing. Add one in AI settings."@
        },
        AiProviderKind::Ollama => r matches Ok(ProviderPlan::Ollama { base_url: b, model: m })
            && b@ == without_trailing_slashes(config.ollama_base_url@) && m@ == model,
    }
}

pub fn plan_provider(config: &StoredAiConfig, api_key: Option<String>) -> (r: Result<
    ProviderPlan,
    String,
>)
    ensures
        plan_matches(r, *config, api_key),
{
    let model = effective_model(config);
    let usable = match &api_key {
        Some(k) => trim(k.as_str()).unicode_len() > 0,
        None => false,
    };
    match config.provider {
        AiProviderKind::Disabled => Err(String::from_str("No AI provider configured")),
        AiProviderKind::Groq => {
            if usable {
                Ok(ProviderPlan::Groq { api_key: api_key.unwrap(), model })
            } else {
                Err(String::from_str("Groq API key is missing. Add one in AI settings."))
            }
        },
        AiProviderKind::Gemini => {
            if usable {
                Ok(ProviderPlan::Gemini { api_key: api_key.unwrap(), model })
            } else {
                Err(String::from_str("Gemini API key is missing. Add one in AI settings."))
            }
        },
        AiProviderKind::Ollama => Ok(
            ProviderPlan::Ollama {
                base_url: trim_trailing_slashes(config.ollama_base_url.as_str()).to_string(),
                model,
            },
        ),
    }
}

/// What the settings store holds under the API-key entry.
#[derive(Debug, Clone)]
pub enum StoredApiKey {
    Missing,
    /// A value that is not a string.
    NotText,
    Text(String),
}

/// The API key in use: a stored non-blank key, else a non-blank key from the
/// environment, else none; a stored value that is not a string is an error.
pub open spec fn resolved_key(
    r: Result<Option<String>, String>,
    stored: StoredApiKey,
    env: Option<String>,
) -> bool {
    match stored {
        StoredApiKey::NotText => r matches Err(e) && e@ == "Stored API key is invalid"@,
        _ => {
            if stored is Text && trimmed(stored->Text_0@).len() > 0 {
                r == Ok::<Option<String>, String>(Some(stored->Text_0))
            } else if usable_key(env) {
                r == Ok::<Option<String>, String>(env)
            } else {
                r == Ok::<Option<String>, String>(None)
            }
        },
    }
}

pub fn resolve_api_key(stored: StoredApiKey, env: Option<String>) -> (r: Result<
    Option<String>,
    String,
>)
    ensures
        resolved_key(r, stored, env),
{
    let ghost stored0 = stored;
    match stored {
        StoredApiKey::NotText => {
            return Err(String::from_str("Stored API key is invalid"));
        },
        StoredApiKey::Text(k) => {
            if trim(k.as_str()).unicode_len() > 0 {
                return Ok(Some(k));
            }
        },
        StoredApiKey::Missing => {},
    }
    let env_usable = match &env {
        Some(k) => trim(k.as_str()).unicode_len() > 0,
        None => false,
    };
    if env_usable {
        Ok(env)
    } else {
        Ok(None)
    }
}

/// The settings stored from the settings form, and the API key to store with
/// them: the model trimmed (the provider's default when blank), the base URL
/// trimmed (the local default when blank), and the key trimmed when it is not
/// blank.
pub open spec fn normalized_settings(
    r: (StoredAiConfig, Option<String>),
    input: SetAiConfigInput,
) -> bool {
    &&& r.0.provider == input.provider
    &&& r.0.model@ == (if trimmed(input.model@).len() == 0 {
        default_model_name(input.provider)
    } else {
        trimmed(input.model@)
    })
    &&& r.0.ollama_base_url@ == (if trimmed(input.ollama_base_url@).len() == 0 {
        default_base_url()
    } else {
        trimmed(input.ollama_base_url@)
    })
    &&& match input.api_key {
        Some(k) => if trimmed(k@).len() > 0 {
            r.1 matches Some(s) && s@ == trimmed(k@)
        } else {
            r.1 is None
        },
        None => r.1 is None,
    }
}

pub fn normalize_ai_settings(input: &SetAiConfigInput) -> (r: (StoredAiConfig, Option<String>))
    ensures
        normalized_settings(r, *input),
{
    let model_t = trim(input.model.as_str());
    let model = if model_t.unicode_len() == 0 {
        String::from_str(input.provider.default_model())
    } else {
        model_t.to_string()
    };
    let url_t = trim(input.ollama_base_url.as_str());
    let ollama_base_url = if url_t.unicode_len() == 0 {
        String::from_str("http://localhost:11434")
    } else {
        url_t.to_string()
    };
    let key = match &input.api_key {
        Some(k) => {
            let t = trim(k.as_str());
            if t.unicode_len() > 0 {
                Some(t.to_string())
            } else {
                None
            }
        },
        None => None,
    };
    (StoredAiConfig { provider: input.provider, model, ollama_base_url }, key)
}

/// The settings as reported to the settings form.
pub fn config_response(stored: StoredAiConfig, has_api_key: bool) -> (r: AiConfigResponse)
    ensures
        r.provider == stored.provider,
        r.model == stored.model,
        r.ollama_base_url == stored.ollama_base_url,
        r.has_api_key == has_api_key,
{
    AiConfigResponse {
        provider: stored.provider,
        model: stored.model,
        ollama_base_url: stored.ollama_base_url,
        has_api_key,
    }
}

/// How a call to a provider ended.
#[derive(Debug, Clone)]
pub enum ProviderOutcome {
    Replied(String),
    Failed(String),
    TimedOut,
}

/// What a provider's reply body amounts to: the text trimmed, or, when
/// nothing is left, the failure "Ollama returned an empty response".
pub fn provider_reply(text: String) -> (o: ProviderOutcome)
    ensures
        trimmed(text@).len() == 0 ==> (o matches ProviderOutcome::Failed(e) && e@
            == "Ollama returned an empty response"@),
        trimmed(text@).len() > 0 ==> (o matches ProviderOutcome::Replied(t) && t@ == trimmed(
            text@,
        )),
{
    let t = trim(text.as_str());
    if t.unicode_len() == 0 {
        ProviderOutcome::Failed(String::from_str("Ollama returned an empty response"))
    } else {
        ProviderOutcome::Replied(t.to_string())
    }
}

/// Reply text shown to the user: markdown characters removed and whitespace
/// collapsed.
pub fn sanitize_response(text: &str) -> (r: String)
    ensures
        r@ == cleaned(text@, false),
{
    clean_text(text, false)
}

/// A provider's answer is used when it is not blank; it is then cleaned and
/// labelled with the provider's name. Otherwise the rule-based fallback
/// answers (`None`).
pub open spec fn routed(provider: AiProviderKind, outcome: ProviderOutcome) -> Option<
    (Seq<char>, Seq<char>),
> {
    match outcome {
        ProviderOutcome::Replied(text) => if trimmed(text@).len() > 0 {
            Some((cleaned(text@, false), provider_name(provider)))
        } else {
            None
        },
        _ => None,
    }
}

pub fn route_response(provider: AiProviderKind, outcome: ProviderOutcome) -> (r: Option<
    AiCompleteResponse,
>)
    ensures
        match r {
            Some(resp) => routed(provider, outcome) == Some((resp.text@, resp.source@)),
            None => routed(provider, outcome) is None,
        },
{
    match outcome {
        ProviderOutcome::Replied(text) => {
            if trim(text.as_str()).unicode_len() > 0 {
                Some(
                    AiCompleteResponse {
                        text: sanitize_response(text.as_str()),
                        source: String::from_str(provider.as_str()),
                    },
                )
            } else {
                None
            }
        },
        _ => None,
    }
}

/// The answer of the rule-based fallback.
pub fn fallback_response(text: String) -> (r: AiCompleteResponse)
    ensures
        r.text == text,
        r.source@ == "fallback"@,
{
    AiCompleteResponse { text, source: String::from_str("fallback") }
}

/// What a connection test does before calling the provider: with no provider
/// the fallback is reported as working; a provider that needs a key without
/// one fails at once; otherwise the provider is probed with `model`.
pub open spec fn precheck_matches(
    r: Result<String, AiConnectionTestResult>,
    config: StoredAiConfig,
    api_key: Option<String>,
) -> bool {
    let model = model_in_use(config.provider, config.model@);
    if config.provider == AiProviderKind::Disabled {
        r matches Err(t) && t.ok && t.message@
            == "Rule-based fallback is active (no remote provider configured)."@ && t.model@
            == "fallback"@
    } else if (config.provider == AiProviderKind::Groq || config.provider == AiProviderKind::Gemini)
        && !usable_key(api_key) {
        r matches Err(t) && !t.ok && t.message@ == "API key is required for the selected provider."@
            && t.model@ == model
    } else {
        r matches Ok(m) && m@ == model
    }
}

pub fn connection_precheck(config: &StoredAiConfig, api_key: &Option<String>) -> (r: Result<
    String,
    AiConnectionTestResult,
>)
    ensures
        precheck_matches(r, *config, *api_key),
{
    let model = effective_model(config);
    if config.provider == AiProviderKind::Disabled {
        return Err(
            AiConnectionTestResult {
                ok: true,
                message: String::from_str(
                    "Rule-based fallback is active (no remote provider configured).",
                ),
                model: String::from_str("fallback"),
            },
        );
    }
    let usable = match api_key {
        Some(k) => trim(k.as_str()).unicode_len() > 0,
        None => false,
    };
    if config.provider.requires_api_key() && !usable {
        return Err(
            AiConnectionTestResult {
                ok: false,
                message: String::from_str("API key is required for the selected provider."),
                model,
            },
        );
    }
    Ok(model)
}

/// The result of probing a provider with `model`: a non-blank reply means
/// connected, a blank one, an error or a timeout does not.
pub open spec fn probe_result_matches(
    t: AiConnectionTestResult,
    model: Seq<char>,
    outcome: ProviderOutcome,
) -> bool {
    &&& t.model@ == model
    &&& match outcome {
        ProviderOutcome::Replied(text) => if trimmed(text@).len() > 0 {
            t.ok && t.message@ == "Connected — "@ + model + " ready"@
        } else {
            !t.ok && t.message@ == "Provider returned an empty response."@
        },
        ProviderOutcome::Failed(e) => !t.ok && t.message == e,
        ProviderOutcome::TimedOut => !t.ok && t.message@ == "Connection timed out after 3 seconds."@,
    }
}

pub fn connection_result(model: String, outcome: ProviderOutcome) -> (t: AiConnectionTestResult)
    ensures
        probe_result_matches(t, model@, outcome),
{
    match outcome {
        ProviderOutcome::Replied(text) => {
            if trim(text.as_str()).unicode_len() > 0 {
                let message = String::from_str("Connected — ").concat(model.as_str()).concat(
                    " ready",
                );
                AiConnectionTestResult { ok: true, message, model }
            } else {
                AiConnectionTestResult {
                    ok: false,
                    message: String::from_str("Provider returned an empty response."),
                    model,
                }
            }
        },
        ProviderOutcome::Failed(error) => AiConnectionTestResult { ok: false, message: error, model },
        ProviderOutcome::TimedOut => AiConnectionTestResult {
            ok: false,
            message: String::from_str("Connection timed out after 3 seconds."),
            model,
        },
    }
}

proof fn lemma_defaults_trimmed(provider: AiProviderKind)
    ensures
        trimmed(default_model_name(provider)) == default_model_name(provider),
        trimmed(default_base_url()) == default_base_url(),
        default_base_url().len() > 0,
{
    reveal_strlit("");
    reveal_strlit("llama3-8b-8192");
    reveal_strlit("gemini-2.0-flash");
    reveal_strlit("llama3");
    reveal_strlit("http://localhost:11434");
    let m = default_model_name(provider);
    if m.len() > 0 {
        assert(!is_ws(m[0]) && !is_ws(m.last())) by {
            assert(m[0] as u32 == 108 || m[0] as u32 == 103);
            assert(m.last() as u32 == 50 || m.last() as u32 == 104 || m.last() as u32 == 51);
        }
    }
    lemma_trim_fixed(m);
    let u = default_base_url();
    assert(!is_ws(u[0]) && !is_ws(u.last())) by {
        assert(u[0] as u32 == 104);
        assert(u.last() as u32 == 52);
    }
    lemma_trim_fixed(u);
}

/// Saving AI settings that were already saved changes nothing: the stored
/// settings and key, sent through the settings form again, come back as
/// they were.
pub proof fn lemma_ai_settings_stable(
    input: SetAiConfigInput,
    r: (StoredAiConfig, Option<String>),
    again: (StoredAiConfig, Option<String>),
)
    requires
        normalized_settings(r, input),
        normalized_settings(
            again,
            SetAiConfigInput {
                provider: r.0.provider,
                model: r.0.model,
                ollama_base_url: r.0.ollama_base_url,
                api_key: r.1,
            },
        ),
    ensures
        again.0.provider == r.0.provider,
        again.0.model@ == r.0.model@,
        again.0.ollama_base_url@ == r.0.ollama_base_url@,
        again.1 is Some == r.1 is Some,
        again.1 is Some ==> again.1->0@ == r.1->0@,
{
    lemma_defaults_trimmed(input.provider);
    lemma_trim_idempotent(input.model@);
    lemma_trim_idempotent(input.ollama_base_url@);
    if let Some(k) = input.api_key {
        lemma_trim_idempotent(k@);
    }
}

} // verus!
