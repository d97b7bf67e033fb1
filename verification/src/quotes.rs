//! Periodic quotes: their settings, when one is due, the request text and the
//! cleaning of the reply.
use vstd::prelude::*;
use vstd::string::*;
use crate::text::{clean_text, cleaned, is_ws, lemma_trim_fixed, lemma_trim_idempotent, trim, trimmed};

verus! {

/// The quote kinds offered out of the box.
pub fn builtin_quote_types() -> (types: Vec<&'static str>)
    ensures
        types@.len() == 5,
        types@[0]@ == "funny"@,
        types@[1]@ == "motivational"@,
        types@[2]@ == "coding"@,
        types@[3]@ == "wisdom"@,
        types@[4]@ == "chill"@,
{
    let mut types: Vec<&'static str> = Vec::new();
    types.push("funny");
    types.push("motivational");
    types.push("coding");
    types.push("wisdom");
    types.push("chill");
    types
}

#[derive(Debug, Clone)]
pub struct QuoteConfig {
    pub enabled: bool,
    pub interval_minutes: u64,
    pub selected_type: String,
    pub custom_types: Vec<String>,
}

#[derive(Debug, Clone)]
pub struct QuotePayload {
    pub text: String,
    pub quote_type: String,
}

impl QuoteConfig {
    /// Quotes start disabled, every five minutes, motivational.
    pub fn default() -> (c: Self)
        ensures
            !c.enabled,
            c.interval_minutes == 5,
            c.selected_type@ == "motivational"@,
            c.custom_types@.len() == 0,
    {
        QuoteConfig {
            enabled: false,
            interval_minutes: 5,
            selected_type: String::from_str("motivational"),
            custom_types: Vec::new(),
        }
    }
}

/// A quote kind as requested: trimmed, "motivational" when blank.
pub open spec fn quote_kind(t: Seq<char>) -> Seq<char> {
    if trimmed(t).len() == 0 {
        "motivational"@
    } else {
        trimmed(t)
    }
}

pub fn normalize_quote_type(t: &str) -> (r: String)
    ensures
        r@ == quote_kind(t@),
{
    let trimmed_type = trim(t);
    if trimmed_type.unicode_len() == 0 {
        String::from_str("motivational")
    } else {
        trimmed_type.to_string()
    }
}

/// The custom kinds kept: each trimmed, blank ones dropped, order kept.
pub open spec fn kept_types(s: Seq<String>) -> Seq<Seq<char>>
    decreases s.len(),
{
    if s.len() == 0 {
        Seq::empty()
    } else {
        let rest = kept_types(s.drop_last());
        if trimmed(s.last()@).len() == 0 {
            rest
        } else {
            rest.push(trimmed(s.last()@))
        }
    }
}

/// Settings as saved: the interval clamped to 1..=1440 minutes, the selected
/// kind normalised, the custom kinds trimmed with blanks dropped.
pub open spec fn normalized_quotes(r: QuoteConfig, c: QuoteConfig) -> bool {
    &&& r.enabled == c.enabled
    &&& r.interval_minutes == (if c.interval_minutes < 1 {
        1
    } else if c.interval_minutes > 1440 {
        1440
    } else {
        c.interval_minutes
    })
    &&& r.selected_type@ == quote_kind(c.selected_type@)
    &&& r.custom_types@.map_values(|x: String| x@) == kept_types(c.custom_types@)
}

pub fn normalize_quote_config(config: &QuoteConfig) -> (r: QuoteConfig)
    ensures
        normalized_quotes(r, *config),
{
    let interval_minutes = if config.interval_minutes < 1 {
        1
    } else if config.interval_minutes > 1440 {
        1440
    } else {
        config.interval_minutes
    };
    let mut custom: Vec<String> = Vec::new();
    let n = config.custom_types.len();
    let mut i: usize = 0;
    while i < n
        invariant
            n == config.custom_types@.len(),
            i <= n,
            custom@.map_values(|x: String| x@) == kept_types(config.custom_types@.take(i as int)),
        decreases n - i,
    {
        let ghost prefix = config.custom_types@.take(i as int + 1);
        assert(prefix.drop_last() =~= config.custom_types@.take(i as int));
        assert(prefix.last() == config.custom_types@[i as int]);
        let t = trim(config.custom_types[i].as_str());
        if t.unicode_len() > 0 {
            let ghost before = custom@;
            custom.push(t.to_string());
            assert(custom@.map_values(|x: String| x@) =~= before.map_values(|x: String| x@).push(t@));
        }
        i = i + 1;
    }
    assert(config.custom_types@.take(n as int) =~= config.custom_types@);
    QuoteConfig {
        enabled: config.enabled,
        interval_minutes,
        selected_type: normalize_quote_type(config.selected_type.as_str()),
        custom_types: custom,
    }
}

/// Quote text shown: markdown and double quotes removed, whitespace collapsed.
pub fn sanitize_quote(text: &str) -> (r: String)
    ensures
        r@ == cleaned(text@, true),
{
    clean_text(text, true)
}

/// The request sent to the text generator for a quote.
pub open spec fn quote_prompt(quote_type: Seq<char>, pet_name: Seq<char>) -> Seq<char> {
    "Write exactly one short "@ + quote_type
        + " quote for a friendly desktop pet companion named "@ + pet_name
        + ". Maximum 18 words. Plain text only — no quotes, no author name, no emoji, no markdown."@
}

pub fn build_quote_prompt(quote_type: &str, pet_name: &str) -> (p: String)
    ensures
        p@ == quote_prompt(quote_type@, pet_name@),
{
    let mut p = String::from_str("Write exactly one short ");
    p.append(quote_type);
    p.append(" quote for a friendly desktop pet companion named ");
    p.append(pet_name);
    p.append(
        ". Maximum 18 words. Plain text only — no quotes, no author name, no emoji, no markdown.",
    );
    p
}

/// A generated quote is the cleaned reply; an empty one is an error.
pub fn finish_quote(response: &str) -> (r: Result<String, String>)
    ensures
        cleaned(response@, true).len() == 0 ==> (r matches Err(e) && e@
            == "AI returned an empty quote."@),
        cleaned(response@, true).len() > 0 ==> (r matches Ok(q) && q@ == cleaned(response@, true)),
{
    let cleaned_text = sanitize_quote(response);
    if cleaned_text.as_str().unicode_len() == 0 {
        Err(String::from_str("AI returned an empty quote."))
    } else {
        Ok(cleaned_text)
    }
}

/// The quote scheduler's memory: when a quote last went out, and the settings.
#[derive(Debug, Clone)]
pub struct QuoteSchedulerState {
    pub last_fired_at: i64,
    pub config: QuoteConfig,
}

impl QuoteSchedulerState {
    pub fn new(config: QuoteConfig) -> (s: Self)
        ensures
            s.last_fired_at == 0,
            s.config == config,
    {
        QuoteSchedulerState { last_fired_at: 0, config }
    }
}

/// A quote is due when quotes are enabled and none went out yet, or the
/// interval has passed since the last one.
pub open spec fn quote_is_due(config: QuoteConfig, last_fired_at: int, now: int) -> bool {
    let interval_secs = (config.interval_minutes * 60) as i64;
    config.enabled && !(last_fired_at > 0 && now - last_fired_at < interval_secs)
}

pub fn quote_due(config: &QuoteConfig, last_fired_at: i64, now: i64) -> (due: bool)
    requires
        config.interval_minutes * 60 <= u64::MAX,
        i64::MIN <= now - last_fired_at <= i64::MAX,
    ensures
        due == quote_is_due(*config, last_fired_at as int, now as int),
{
    if !config.enabled {
        return false;
    }
    let interval_secs = (config.interval_minutes * 60) as i64;
    !(last_fired_at > 0 && now - last_fired_at < interval_secs)
}

/// Every kind kept is trimmed and not blank.
proof fn lemma_kept_types_tidy(s: Seq<String>)
    ensures
        forall|i: int|
            0 <= i < kept_types(s).len() ==> trimmed(#[trigger] kept_types(s)[i]) == kept_types(s)[i]
                && kept_types(s)[i].len() > 0,
    decreases s.len(),
{
    if s.len() > 0 {
        let rest = kept_types(s.drop_last());
        lemma_kept_types_tidy(s.drop_last());
        lemma_trim_idempotent(s.last()@);
        assert forall|i: int| 0 <= i < kept_types(s).len() implies trimmed(
            #[trigger] kept_types(s)[i],
        ) == kept_types(s)[i] && kept_types(s)[i].len() > 0 by {
            if i < rest.len() {
                assert(kept_types(s)[i] == rest[i]);
            }
        }
    }
}

/// Kinds already trimmed and not blank are all kept, unchanged.
proof fn lemma_kept_types_fixed(s: Seq<String>)
    requires
        forall|i: int| 0 <= i < s.len() ==> trimmed((#[trigger] s[i])@) == s[i]@ && s[i]@.len() > 0,
    ensures
        kept_types(s) == s.map_values(|x: String| x@),
    decreases s.len(),
{
    if s.len() > 0 {
        let init = s.drop_last();
        assert forall|i: int| 0 <= i < init.len() implies trimmed((#[trigger] init[i])@) == init[i]@
            && init[i]@.len() > 0 by {
            assert(init[i] == s[i]);
        }
        lemma_kept_types_fixed(init);
        assert(s[s.len() - 1] == s.last());
        assert(s.map_values(|x: String| x@) =~= init.map_values(|x: String| x@).push(s.last()@));
    } else {
        assert(s.map_values(|x: String| x@) =~= Seq::<Seq<char>>::empty());
    }
}

/// Saving quote settings that were already saved changes nothing: the
/// normalisation is idempotent.
pub proof fn lemma_quote_settings_stable(c: QuoteConfig, r: QuoteConfig, again: QuoteConfig)
    requires
        normalized_quotes(r, c),
        normalized_quotes(again, r),
    ensures
        again.enabled == r.enabled,
        again.interval_minutes == r.interval_minutes,
        again.selected_type@ == r.selected_type@,
        again.custom_types@.map_values(|x: String| x@) == r.custom_types@.map_values(|x: String| x@),
{
    reveal_strlit("motivational");
    assert(!is_ws("motivational"@[0]) && !is_ws("motivational"@.last())) by {
        assert("motivational"@[0] as u32 == 109);
        assert("motivational"@.last() as u32 == 108);
    }
    lemma_trim_fixed("motivational"@);
    lemma_trim_idempotent(c.selected_type@);
    let views = r.custom_types@.map_values(|x: String| x@);
    lemma_kept_types_tidy(c.custom_types@);
    assert forall|i: int| 0 <= i < r.custom_types@.len() implies trimmed(
        (#[trigger] r.custom_types@[i])@,
    ) == r.custom_types@[i]@ && r.custom_types@[i]@.len() > 0 by {
        assert(views[i] == r.custom_types@[i]@);
        assert(views[i] == kept_types(c.custom_types@)[i]);
    }
    lemma_kept_types_fixed(r.custom_types@);
}

} // verus!
