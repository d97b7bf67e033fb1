//! The prompt sent to a text generator and the rule-based replies used when
//! no generator answers.
use vstd::prelude::*;
use vstd::string::*;
use rand::seq::SliceRandom;
use crate::events::{event_key, event_name, PetEventType};
use crate::text::{
    brace_free, decimal, join, joined, lemma_brace_free_lacks, lemma_placeholder_lacks,
    lemma_replaced_absent, lemma_replaced_whole, placeholder_shaped, replace, replaced, str_eq,
    u64_to_text, views,
};
use super::context::{personality_tone, tone_of};

verus! {

/// The situation the pet is in when it speaks. Measurements arrive already
/// rendered as whole numbers (`{:.0}`).
#[derive(Debug, Clone)]
pub struct PromptContext {
    pub pet_name: String,
    pub personality: String,
    pub mood: String,
    pub cpu_text: String,
    pub ram_text: String,
    pub battery_text: Option<String>,
    pub active_app: Option<String>,
    pub coding_session_duration: u64,
    pub recent_events: Vec<String>,
    pub time_of_day: String,
    pub day_of_week: String,
}

/// The event the pet reacts to; `value_text` is the event's value rendered as
/// a whole number.
#[derive(Debug, Clone)]
pub struct PromptEvent {
    pub event_type: PetEventType,
    pub title: Option<String>,
    pub message: Option<String>,
    pub category: Option<String>,
    pub reminder_id: Option<i64>,
    pub value_text: Option<String>,
    pub app_name: Option<String>,
}

pub open spec fn or_default(o: Option<String>, d: Seq<char>) -> Seq<char> {
    match o {
        Some(s) => s@,
        None => d,
    }
}

fn append_or(out: &mut String, o: &Option<String>, d: &str)
    ensures
        final(out)@ == old(out)@ + or_default(*o, d@),
{
    match o {
        Some(s) => out.append(s.as_str()),
        None => out.append(d),
    }
}

/// The sentence describing what happened.
pub open spec fn trigger_detail(c: PromptContext, e: PromptEvent) -> Seq<char> {
    match e.event_type {
        PetEventType::HighCpu => "CPU usage is high at "@ + or_default(e.value_text, c.cpu_text@)
            + "%"@,
        PetEventType::HighRam => "RAM usage is high at "@ + or_default(e.value_text, c.ram_text@)
            + "%"@,
        PetEventType::LowBattery => "Battery is low at "@ + or_default(e.value_text, "0"@) + "%"@,
        PetEventType::CriticalBattery => "Battery is critical at "@ + or_default(e.value_text, "0"@)
            + "%"@,
        PetEventType::CodingSessionStarted => "User started coding in "@ + or_default(
            e.app_name,
            "their editor"@,
        ),
        PetEventType::CodingSessionEnded => "User ended a coding session in "@ + or_default(
            e.app_name,
            "their editor"@,
        ),
        PetEventType::ReminderFired => "Reminder fired: "@ + or_default(e.title, "Reminder"@)
            + " — "@ + or_default(e.message, ""@),
        PetEventType::IdleDetected => "User has been idle for a while"@,
        PetEventType::UserInteraction => "User clicked on the pet"@,
        PetEventType::RandomMessage => "Send a spontaneous check-in message"@,
        PetEventType::LevelUp => "User leveled up to level "@ + or_default(e.value_text, "1"@),
        PetEventType::AchievementUnlocked => "User unlocked achievement: "@ + or_default(
            e.title,
            "Achievement"@,
        ),
        PetEventType::ObjectiveCompleted => "User completed objective: "@ + or_default(
            e.title,
            "Daily objective"@,
        ),
        PetEventType::StreakMilestone => "User hit a "@ + or_default(e.value_text, "0"@)
            + "-day streak milestone"@,
    }
}

fn append_trigger_detail(out: &mut String, c: &PromptContext, e: &PromptEvent)
    ensures
        final(out)@ == old(out)@ + trigger_detail(*c, *e),
{
    let ghost start = out@;
    match e.event_type {
        PetEventType::HighCpu => {
            out.append("CPU usage is high at ");
            append_or(out, &e.value_text, c.cpu_text.as_str());
            out.append("%");
        },
        PetEventType::HighRam => {
            out.append("RAM usage is high at ");
            append_or(out, &e.value_text, c.ram_text.as_str());
            out.append("%");
        },
        PetEventType::LowBattery => {
            out.append("Battery is low at ");
            append_or(out, &e.value_text, "0");
            out.append("%");
        },
        PetEventType::CriticalBattery => {
            out.append("Battery is critical at ");
            append_or(out, &e.value_text, "0");
            out.append("%");
        },
        PetEventType::CodingSessionStarted => {
            out.append("User started coding in ");
            append_or(out, &e.app_name, "their editor");
        },
        PetEventType::CodingSessionEnded => {
            out.append("User ended a coding session in ");
            append_or(out, &e.app_name, "their editor");
        },
        PetEventType::ReminderFired => {
            out.append("Reminder fired: ");
            append_or(out, &e.title, "Reminder");
            out.append(" — ");
            append_or(out, &e.message, "");
        },
        PetEventType::IdleDetected => {
            out.append("User has been idle for a while");
        },
        PetEventType::UserInteraction => {
            out.append("User clicked on the pet");
        },
        PetEventType::RandomMessage => {
            out.append("Send a spontaneous check-in message");
        },
        PetEventType::LevelUp => {
            out.append("User leveled up to level ");
            append_or(out, &e.value_text, "1");
        },
        PetEventType::AchievementUnlocked => {
            out.append("User unlocked achievement: ");
            append_or(out, &e.title, "Achievement");
        },
        PetEventType::ObjectiveCompleted => {
            out.append("User completed objective: ");
            append_or(out, &e.title, "Daily objective");
        },
        PetEventType::StreakMilestone => {
            out.append("User hit a ");
            append_or(out, &e.value_text, "0");
            out.append("-day streak milestone");
        },
    }
    assert(out@ =~= start + trigger_detail(*c, *e));
}

/// The recent events, comma separated, or "none".
pub open spec fn recent_text(c: PromptContext) -> Seq<char> {
    if c.recent_events@.len() == 0 {
        "none"@
    } else {
        joined(views(c.recent_events@), ", "@)
    }
}

/// The battery level with its percent sign, or "unknown".
pub open spec fn battery_phrase(c: PromptContext) -> Seq<char> {
    match c.battery_text {
        Some(b) => b@ + "%"@,
        None => "unknown"@,
    }
}

/// The whole prompt: who the pet is, its tone and mood, the machine's state,
/// the reply rules, the event and its description.
pub open spec fn prompt_text(c: PromptContext, e: PromptEvent) -> Seq<char> {
    "You are "@ + c.pet_name@ + ", a desktop pet companion with a "@ + c.personality@
        + " personality.\nTone: "@ + tone_of(c.personality@) + ". Current mood: "@ + c.mood@
        + ".\nContext: CPU "@ + c.cpu_text@ + "%, RAM "@ + c.ram_text@ + "%, battery "@
        + battery_phrase(c) + ", active app \""@ + or_default(c.active_app, "unknown"@)
        + "\", coding session "@ + decimal(c.coding_session_duration as int) + "s, time "@
        + c.time_of_day@ + " on "@ + c.day_of_week@ + ", recent events: "@ + recent_text(c)
        + ".\nRules: Reply in plain text only, no markdown, at most 2 casual sentences, under 80 tokens, stay in character.\nEvent: "@
        + event_name(e.event_type) + ". "@ + trigger_detail(c, e) + "\nRespond as "@ + c.pet_name@
        + ":"@
}

pub fn build_prompt(context: &PromptContext, event: &PromptEvent) -> (prompt: String)
    ensures
        prompt@ == prompt_text(*context, *event),
{
    let mut out = String::from_str("You are ");
    out.append(context.pet_name.as_str());
    out.append(", a desktop pet companion with a ");
    out.append(context.personality.as_str());
    out.append(" personality.\nTone: ");
    out.append(personality_tone(context.personality.as_str()));
    out.append(". Current mood: ");
    out.append(context.mood.as_str());
    out.append(".\nContext: CPU ");
    out.append(context.cpu_text.as_str());
    out.append("%, RAM ");
    out.append(context.ram_text.as_str());
    out.append("%, battery ");
    let ghost before_battery = out@;
    match &context.battery_text {
        Some(b) => {
            out.append(b.as_str());
            out.append("%");
        },
        None => out.append("unknown"),
    }
    assert(out@ =~= before_battery + battery_phrase(*context));
    out.append(", active app \"");
    append_or(&mut out, &context.active_app, "unknown");
    out.append("\", coding session ");
    out.append(u64_to_text(context.coding_session_duration).as_str());
    out.append("s, time ");
    out.append(context.time_of_day.as_str());
    out.append(" on ");
    out.append(context.day_of_week.as_str());
    out.append(", recent events: ");
    let ghost before_recent = out@;
    if context.recent_events.len() == 0 {
        out.append("none");
    } else {
        out.append(join(&context.recent_events, ", ").as_str());
    }
    assert(out@ =~= before_recent + recent_text(*context));
    out.append(
        ".\nRules: Reply in plain text only, no markdown, at most 2 casual sentences, under 80 tokens, stay in character.\nEvent: ",
    );
    out.append(event_key(event.event_type));
    out.append(". ");
    append_trigger_detail(&mut out, context, event);
    out.append("\nRespond as ");
    out.append(context.pet_name.as_str());
    out.append(":");
    out
}

/// Rule-based replies, grouped by event name.
#[derive(Debug, Clone)]
pub struct FallbackTemplates {
    pub key: String,
    pub templates: Vec<String>,
}

/// The rule-based responder: reply templates for each event name.
pub struct FallbackProvider {
    pub rules: Vec<FallbackTemplates>,
}

/// Position of the first group named `key` at or after `i`, or -1.
pub open spec fn group_from(rules: Seq<FallbackTemplates>, key: Seq<char>, i: int) -> int
    decreases rules.len() - i,
{
    if i < 0 || i >= rules.len() {
        -1
    } else if rules[i].key@ == key {
        i
    } else {
        group_from(rules, key, i + 1)
    }
}

/// A template with its placeholders filled in, one placeholder after the
/// other: {pet_name}, {personality}, {mood}, {cpu}, {ram}, {battery} ("?"
/// when unknown), {app} ("your app"), {value} (the CPU reading when absent),
/// {title} ("Reminder"), {message} (empty) and {editor} ("your editor").
pub open spec fn substituted(t: Seq<char>, c: PromptContext, e: PromptEvent) -> Seq<char> {
    let s1 = replaced(t, "{pet_name}"@, c.pet_name@);
    let s2 = replaced(s1, "{personality}"@, c.personality@);
    let s3 = replaced(s2, "{mood}"@, c.mood@);
    let s4 = replaced(s3, "{cpu}"@, c.cpu_text@);
    let s5 = replaced(s4, "{ram}"@, c.ram_text@);
    let s6 = replaced(s5, "{battery}"@, or_default(c.battery_text, "?"@));
    let s7 = replaced(s6, "{app}"@, or_default(c.active_app, "your app"@));
    let s8 = replaced(s7, "{value}"@, or_default(e.value_text, c.cpu_text@));
    let s9 = replaced(s8, "{title}"@, or_default(e.title, "Reminder"@));
    let s10 = replaced(s9, "{message}"@, or_default(e.message, ""@));
    replaced(s10, "{editor}"@, or_default(e.app_name, "your editor"@))
}

fn owned_or(o: &Option<String>, d: &str) -> (s: String)
    ensures
        s@ == or_default(*o, d@),
{
    match o {
        Some(v) => v.clone(),
        None => d.to_string(),
    }
}

pub fn substitute(template: &str, context: &PromptContext, event: &PromptEvent) -> (s: String)
    ensures
        s@ == substituted(template@, *context, *event),
{
    proof {
        reveal_strlit("{pet_name}");
        reveal_strlit("{personality}");
        reveal_strlit("{mood}");
        reveal_strlit("{cpu}");
        reveal_strlit("{ram}");
        reveal_strlit("{battery}");
        reveal_strlit("{app}");
        reveal_strlit("{value}");
        reveal_strlit("{title}");
        reveal_strlit("{message}");
        reveal_strlit("{editor}");
    }
    let battery = owned_or(&context.battery_text, "?");
    let app = owned_or(&context.active_app, "your app");
    let value = owned_or(&event.value_text, context.cpu_text.as_str());
    let title = owned_or(&event.title, "Reminder");
    let message = owned_or(&event.message, "");
    let editor = owned_or(&event.app_name, "your editor");
    let s1 = replace(template, "{pet_name}", context.pet_name.as_str());
    let s2 = replace(s1.as_str(), "{personality}", context.personality.as_str());
    let s3 = replace(s2.as_str(), "{mood}", context.mood.as_str());
    let s4 = replace(s3.as_str(), "{cpu}", context.cpu_text.as_str());
    let s5 = replace(s4.as_str(), "{ram}", context.ram_text.as_str());
    let s6 = replace(s5.as_str(), "{battery}", battery.as_str());
    let s7 = replace(s6.as_str(), "{app}", app.as_str());
    let s8 = replace(s7.as_str(), "{value}", value.as_str());
    let s9 = replace(s8.as_str(), "{title}", title.as_str());
    let s10 = replace(s9.as_str(), "{message}", message.as_str());
    replace(s10.as_str(), "{editor}", editor.as_str())
}

/// Each placeholder is an opening brace, a word and a closing brace.
proof fn lemma_placeholders_shaped()
    ensures
        placeholder_shaped("{pet_name}"@),
        placeholder_shaped("{personality}"@),
        placeholder_shaped("{mood}"@),
        placeholder_shaped("{cpu}"@),
        placeholder_shaped("{ram}"@),
        placeholder_shaped("{battery}"@),
        placeholder_shaped("{app}"@),
        placeholder_shaped("{value}"@),
        placeholder_shaped("{title}"@),
        placeholder_shaped("{message}"@),
        placeholder_shaped("{editor}"@),
{
    reveal_strlit("{pet_name}");
    assert("{pet_name}"@.len() == 10 && "{pet_name}"@[0] == '{' && "{pet_name}"@[9] == '}');
    assert forall|i: int| 0 < i < 9 implies #[trigger] "{pet_name}"@[i] != '{' && "{pet_name}"@[i] != '}' by {
        assert(i == 1 || i == 2 || i == 3 || i == 4 || i == 5 || i == 6 || i == 7 || i == 8);
    }
    reveal_strlit("{personality}");
    assert("{personality}"@.len() == 13 && "{personality}"@[0] == '{' && "{personality}"@[12] == '}');
    assert forall|i: int| 0 < i < 12 implies #[trigger] "{personality}"@[i] != '{' && "{personality}"@[i] != '}' by {
        assert(i == 1 || i == 2 || i == 3 || i == 4 || i == 5 || i == 6 || i == 7 || i == 8 || i == 9 || i == 10 || i == 11);
    }
    reveal_strlit("{mood}");
    assert("{mood}"@.len() == 6 && "{mood}"@[0] == '{' && "{mood}"@[5] == '}');
    assert forall|i: int| 0 < i < 5 implies #[trigger] "{mood}"@[i] != '{' && "{mood}"@[i] != '}' by {
        assert(i == 1 || i == 2 || i == 3 || i == 4);
    }
    reveal_strlit("{cpu}");
    assert("{cpu}"@.len() == 5 && "{cpu}"@[0] == '{' && "{cpu}"@[4] == '}');
    assert forall|i: int| 0 < i < 4 implies #[trigger] "{cpu}"@[i] != '{' && "{cpu}"@[i] != '}' by {
        assert(i == 1 || i == 2 || i == 3);
    }
    reveal_strlit("{ram}");
    assert("{ram}"@.len() == 5 && "{ram}"@[0] == '{' && "{ram}"@[4] == '}');
    assert forall|i: int| 0 < i < 4 implies #[trigger] "{ram}"@[i] != '{' && "{ram}"@[i] != '}' by {
        assert(i == 1 || i == 2 || i == 3);
    }
    reveal_strlit("{battery}");
    assert("{battery}"@.len() == 9 && "{battery}"@[0] == '{' && "{battery}"@[8] == '}');
    assert forall|i: int| 0 < i < 8 implies #[trigger] "{battery}"@[i] != '{' && "{battery}"@[i] != '}' by {
        assert(i == 1 || i == 2 || i == 3 || i == 4 || i == 5 || i == 6 || i == 7);
    }
    reveal_strlit("{app}");
    assert("{app}"@.len() == 5 && "{app}"@[0] == '{' && "{app}"@[4] == '}');
    assert forall|i: int| 0 < i < 4 implies #[trigger] "{app}"@[i] != '{' && "{app}"@[i] != '}' by {
        assert(i == 1 || i == 2 || i == 3);
    }
    reveal_strlit("{value}");
    assert("{value}"@.len() == 7 && "{value}"@[0] == '{' && "{value}"@[6] == '}');
    assert forall|i: int| 0 < i < 6 implies #[trigger] "{value}"@[i] != '{' && "{value}"@[i] != '}' by {
        assert(i == 1 || i == 2 || i == 3 || i == 4 || i == 5);
    }
    reveal_strlit("{title}");
    assert("{title}"@.len() == 7 && "{title}"@[0] == '{' && "{title}"@[6] == '}');
    assert forall|i: int| 0 < i < 6 implies #[trigger] "{title}"@[i] != '{' && "{title}"@[i] != '}' by {
        assert(i == 1 || i == 2 || i == 3 || i == 4 || i == 5);
    }
    reveal_strlit("{message}");
    assert("{message}"@.len() == 9 && "{message}"@[0] == '{' && "{message}"@[8] == '}');
    assert forall|i: int| 0 < i < 8 implies #[trigger] "{message}"@[i] != '{' && "{message}"@[i] != '}' by {
        assert(i == 1 || i == 2 || i == 3 || i == 4 || i == 5 || i == 6 || i == 7);
    }
    reveal_strlit("{editor}");
    assert("{editor}"@.len() == 8 && "{editor}"@[0] == '{' && "{editor}"@[7] == '}');
    assert forall|i: int| 0 < i < 7 implies #[trigger] "{editor}"@[i] != '{' && "{editor}"@[i] != '}' by {
        assert(i == 1 || i == 2 || i == 3 || i == 4 || i == 5 || i == 6);
    }
}

/// The default values hold no opening brace.
proof fn lemma_defaults_brace_free()
    ensures
        brace_free("?"@),
        brace_free("your app"@),
        brace_free("Reminder"@),
        brace_free(""@),
        brace_free("your editor"@),
{
    reveal_strlit("?");
    assert("?"@.len() == 1);
    assert forall|k: int| 0 <= k < 1 implies #[trigger] "?"@[k] != '{' by {
        assert(k == 0);
    }
    reveal_strlit("your app");
    assert("your app"@.len() == 8);
    assert forall|k: int| 0 <= k < 8 implies #[trigger] "your app"@[k] != '{' by {
        assert(k == 0 || k == 1 || k == 2 || k == 3 || k == 4 || k == 5 || k == 6 || k == 7);
    }
    reveal_strlit("Reminder");
    assert("Reminder"@.len() == 8);
    assert forall|k: int| 0 <= k < 8 implies #[trigger] "Reminder"@[k] != '{' by {
        assert(k == 0 || k == 1 || k == 2 || k == 3 || k == 4 || k == 5 || k == 6 || k == 7);
    }
    reveal_strlit("");
    assert(""@.len() == 0);
    reveal_strlit("your editor");
    assert("your editor"@.len() == 11);
    assert forall|k: int| 0 <= k < 11 implies #[trigger] "your editor"@[k] != '{' by {
        assert(k == 0 || k == 1 || k == 2 || k == 3 || k == 4 || k == 5 || k == 6 || k == 7 || k == 8 || k == 9 || k == 10);
    }
}

/// A template that is one placeholder alone becomes that placeholder's
/// value: the pet's name, personality and mood, the CPU and RAM readings,
/// the battery reading ("?" when unknown), the active app ("your app"),
/// the event's value (the CPU reading when it has none), the reminder's
/// title ("Reminder") and message (empty), and the editor ("your
/// editor"), provided no value holds an opening brace that a later
/// placeholder could start with.
pub proof fn lemma_placeholders_filled(c: PromptContext, e: PromptEvent)
    requires
        brace_free(c.pet_name@),
        brace_free(c.personality@),
        brace_free(c.mood@),
        brace_free(c.cpu_text@),
        brace_free(c.ram_text@),
        c.battery_text matches Some(b) ==> brace_free(b@),
        c.active_app matches Some(a) ==> brace_free(a@),
        e.value_text matches Some(v) ==> brace_free(v@),
        e.title matches Some(t) ==> brace_free(t@),
        e.message matches Some(m) ==> brace_free(m@),
        e.app_name matches Some(n) ==> brace_free(n@),
    ensures
        substituted("{pet_name}"@, c, e) == c.pet_name@,
        substituted("{personality}"@, c, e) == c.personality@,
        substituted("{mood}"@, c, e) == c.mood@,
        substituted("{cpu}"@, c, e) == c.cpu_text@,
        substituted("{ram}"@, c, e) == c.ram_text@,
        substituted("{battery}"@, c, e) == or_default(c.battery_text, "?"@),
        substituted("{app}"@, c, e) == or_default(c.active_app, "your app"@),
        substituted("{value}"@, c, e) == or_default(e.value_text, c.cpu_text@),
        substituted("{title}"@, c, e) == or_default(e.title, "Reminder"@),
        substituted("{message}"@, c, e) == or_default(e.message, ""@),
        substituted("{editor}"@, c, e) == or_default(e.app_name, "your editor"@),
{
    lemma_placeholders_shaped();
    lemma_defaults_brace_free();
    reveal_strlit("{pet_name}");
    reveal_strlit("{personality}");
    reveal_strlit("{mood}");
    reveal_strlit("{cpu}");
    reveal_strlit("{ram}");
    reveal_strlit("{battery}");
    reveal_strlit("{app}");
    reveal_strlit("{value}");
    reveal_strlit("{title}");
    reveal_strlit("{message}");
    reveal_strlit("{editor}");
    assert("{pet_name}"@.len() == 10 && "{pet_name}"@[1] == 'p');
    assert("{personality}"@.len() == 13 && "{personality}"@[1] == 'p');
    assert("{mood}"@.len() == 6 && "{mood}"@[1] == 'm');
    assert("{cpu}"@.len() == 5 && "{cpu}"@[1] == 'c');
    assert("{ram}"@.len() == 5 && "{ram}"@[1] == 'r');
    assert("{battery}"@.len() == 9 && "{battery}"@[1] == 'b');
    assert("{app}"@.len() == 5 && "{app}"@[1] == 'a');
    assert("{value}"@.len() == 7 && "{value}"@[1] == 'v');
    assert("{title}"@.len() == 7 && "{title}"@[1] == 't');
    assert("{message}"@.len() == 9 && "{message}"@[1] == 'm');
    assert("{editor}"@.len() == 8 && "{editor}"@[1] == 'e');
    // {pet_name}
    lemma_replaced_whole("{pet_name}"@, c.pet_name@);
    lemma_brace_free_lacks(c.pet_name@, "{personality}"@);
    lemma_replaced_absent(c.pet_name@, "{personality}"@, c.personality@);
    lemma_brace_free_lacks(c.pet_name@, "{mood}"@);
    lemma_replaced_absent(c.pet_name@, "{mood}"@, c.mood@);
    lemma_brace_free_lacks(c.pet_name@, "{cpu}"@);
    lemma_replaced_absent(c.pet_name@, "{cpu}"@, c.cpu_text@);
    lemma_brace_free_lacks(c.pet_name@, "{ram}"@);
    lemma_replaced_absent(c.pet_name@, "{ram}"@, c.ram_text@);
    lemma_brace_free_lacks(c.pet_name@, "{battery}"@);
    lemma_replaced_absent(c.pet_name@, "{battery}"@, or_default(c.battery_text, "?"@));
    lemma_brace_free_lacks(c.pet_name@, "{app}"@);
    lemma_replaced_absent(c.pet_name@, "{app}"@, or_default(c.active_app, "your app"@));
    lemma_brace_free_lacks(c.pet_name@, "{value}"@);
    lemma_replaced_absent(c.pet_name@, "{value}"@, or_default(e.value_text, c.cpu_text@));
    lemma_brace_free_lacks(c.pet_name@, "{title}"@);
    lemma_replaced_absent(c.pet_name@, "{title}"@, or_default(e.title, "Reminder"@));
    lemma_brace_free_lacks(c.pet_name@, "{message}"@);
    lemma_replaced_absent(c.pet_name@, "{message}"@, or_default(e.message, ""@));
    lemma_brace_free_lacks(c.pet_name@, "{editor}"@);
    lemma_replaced_absent(c.pet_name@, "{editor}"@, or_default(e.app_name, "your editor"@));
    // {personality}
    lemma_placeholder_lacks("{personality}"@, "{pet_name}"@);
    lemma_replaced_absent("{personality}"@, "{pet_name}"@, c.pet_name@);
    lemma_replaced_whole("{personality}"@, c.personality@);
    lemma_brace_free_lacks(c.personality@, "{mood}"@);
    lemma_replaced_absent(c.personality@, "{mood}"@, c.mood@);
    lemma_brace_free_lacks(c.personality@, "{cpu}"@);
    lemma_replaced_absent(c.personality@, "{cpu}"@, c.cpu_text@);
    lemma_brace_free_lacks(c.personality@, "{ram}"@);
    lemma_replaced_absent(c.personality@, "{ram}"@, c.ram_text@);
    lemma_brace_free_lacks(c.personality@, "{battery}"@);
    lemma_replaced_absent(c.personality@, "{battery}"@, or_default(c.battery_text, "?"@));
    lemma_brace_free_lacks(c.personality@, "{app}"@);
    lemma_replaced_absent(c.personality@, "{app}"@, or_default(c.active_app, "your app"@));
    lemma_brace_free_lacks(c.personality@, "{value}"@);
    lemma_replaced_absent(c.personality@, "{value}"@, or_default(e.value_text, c.cpu_text@));
    lemma_brace_free_lacks(c.personality@, "{title}"@);
    lemma_replaced_absent(c.personality@, "{title}"@, or_default(e.title, "Reminder"@));
    lemma_brace_free_lacks(c.personality@, "{message}"@);
    lemma_replaced_absent(c.personality@, "{message}"@, or_default(e.message, ""@));
    lemma_brace_free_lacks(c.personality@, "{editor}"@);
    lemma_replaced_absent(c.personality@, "{editor}"@, or_default(e.app_name, "your editor"@));
    // {mood}
    lemma_placeholder_lacks("{mood}"@, "{pet_name}"@);
    lemma_replaced_absent("{mood}"@, "{pet_name}"@, c.pet_name@);
    lemma_placeholder_lacks("{mood}"@, "{personality}"@);
    lemma_replaced_absent("{mood}"@, "{personality}"@, c.personality@);
    lemma_replaced_whole("{mood}"@, c.mood@);
    lemma_brace_free_lacks(c.mood@, "{cpu}"@);
    lemma_replaced_absent(c.mood@, "{cpu}"@, c.cpu_text@);
    lemma_brace_free_lacks(c.mood@, "{ram}"@);
    lemma_replaced_absent(c.mood@, "{ram}"@, c.ram_text@);
    lemma_brace_free_lacks(c.mood@, "{battery}"@);
    lemma_replaced_absent(c.mood@, "{battery}"@, or_default(c.battery_text, "?"@));
    lemma_brace_free_lacks(c.mood@, "{app}"@);
    lemma_replaced_absent(c.mood@, "{app}"@, or_default(c.active_app, "your app"@));
    lemma_brace_free_lacks(c.mood@, "{value}"@);
    lemma_replaced_absent(c.mood@, "{value}"@, or_default(e.value_text, c.cpu_text@));
    lemma_brace_free_lacks(c.mood@, "{title}"@);
    lemma_replaced_absent(c.mood@, "{title}"@, or_default(e.title, "Reminder"@));
    lemma_brace_free_lacks(c.mood@, "{message}"@);
    lemma_replaced_absent(c.mood@, "{message}"@, or_default(e.message, ""@));
    lemma_brace_free_lacks(c.mood@, "{editor}"@);
    lemma_replaced_absent(c.mood@, "{editor}"@, or_default(e.app_name, "your editor"@));
    // {cpu}
    lemma_placeholder_lacks("{cpu}"@, "{pet_name}"@);
    lemma_replaced_absent("{cpu}"@, "{pet_name}"@, c.pet_name@);
    lemma_placeholder_lacks("{cpu}"@, "{personality}"@);
    lemma_replaced_absent("{cpu}"@, "{personality}"@, c.personality@);
    lemma_placeholder_lacks("{cpu}"@, "{mood}"@);
    lemma_replaced_absent("{cpu}"@, "{mood}"@, c.mood@);
    lemma_replaced_whole("{cpu}"@, c.cpu_text@);
    lemma_brace_free_lacks(c.cpu_text@, "{ram}"@);
    lemma_replaced_absent(c.cpu_text@, "{ram}"@, c.ram_text@);
    lemma_brace_free_lacks(c.cpu_text@, "{battery}"@);
    lemma_replaced_absent(c.cpu_text@, "{battery}"@, or_default(c.battery_text, "?"@));
    lemma_brace_free_lacks(c.cpu_text@, "{app}"@);
    lemma_replaced_absent(c.cpu_text@, "{app}"@, or_default(c.active_app, "your app"@));
    lemma_brace_free_lacks(c.cpu_text@, "{value}"@);
    lemma_replaced_absent(c.cpu_text@, "{value}"@, or_default(e.value_text, c.cpu_text@));
    lemma_brace_free_lacks(c.cpu_text@, "{title}"@);
    lemma_replaced_absent(c.cpu_text@, "{title}"@, or_default(e.title, "Reminder"@));
    lemma_brace_free_lacks(c.cpu_text@, "{message}"@);
    lemma_replaced_absent(c.cpu_text@, "{message}"@, or_default(e.message, ""@));
    lemma_brace_free_lacks(c.cpu_text@, "{editor}"@);
    lemma_replaced_absent(c.cpu_text@, "{editor}"@, or_default(e.app_name, "your editor"@));
    // {ram}
    lemma_placeholder_lacks("{ram}"@, "{pet_name}"@);
    lemma_replaced_absent("{ram}"@, "{pet_name}"@, c.pet_name@);
    lemma_placeholder_lacks("{ram}"@, "{personality}"@);
    lemma_replaced_absent("{ram}"@, "{personality}"@, c.personality@);
    lemma_placeholder_lacks("{ram}"@, "{mood}"@);
    lemma_replaced_absent("{ram}"@, "{mood}"@, c.mood@);
    lemma_placeholder_lacks("{ram}"@, "{cpu}"@);
    lemma_replaced_absent("{ram}"@, "{cpu}"@, c.cpu_text@);
    lemma_replaced_whole("{ram}"@, c.ram_text@);
    lemma_brace_free_lacks(c.ram_text@, "{battery}"@);
    lemma_replaced_absent(c.ram_text@, "{battery}"@, or_default(c.battery_text, "?"@));
    lemma_brace_free_lacks(c.ram_text@, "{app}"@);
    lemma_replaced_absent(c.ram_text@, "{app}"@, or_default(c.active_app, "your app"@));
    lemma_brace_free_lacks(c.ram_text@, "{value}"@);
    lemma_replaced_absent(c.ram_text@, "{value}"@, or_default(e.value_text, c.cpu_text@));
    lemma_brace_free_lacks(c.ram_text@, "{title}"@);
    lemma_replaced_absent(c.ram_text@, "{title}"@, or_default(e.title, "Reminder"@));
    lemma_brace_free_lacks(c.ram_text@, "{message}"@);
    lemma_replaced_absent(c.ram_text@, "{message}"@, or_default(e.message, ""@));
    lemma_brace_free_lacks(c.ram_text@, "{editor}"@);
    lemma_replaced_absent(c.ram_text@, "{editor}"@, or_default(e.app_name, "your editor"@));
    // {battery}
    lemma_placeholder_lacks("{battery}"@, "{pet_name}"@);
    lemma_replaced_absent("{battery}"@, "{pet_name}"@, c.pet_name@);
    lemma_placeholder_lacks("{battery}"@, "{personality}"@);
    lemma_replaced_absent("{battery}"@, "{personality}"@, c.personality@);
    lemma_placeholder_lacks("{battery}"@, "{mood}"@);
    lemma_replaced_absent("{battery}"@, "{mood}"@, c.mood@);
    lemma_placeholder_lacks("{battery}"@, "{cpu}"@);
    lemma_replaced_absent("{battery}"@, "{cpu}"@, c.cpu_text@);
    lemma_placeholder_lacks("{battery}"@, "{ram}"@);
    lemma_replaced_absent("{battery}"@, "{ram}"@, c.ram_text@);
    lemma_replaced_whole("{battery}"@, or_default(c.battery_text, "?"@));
    lemma_brace_free_lacks(or_default(c.battery_text, "?"@), "{app}"@);
    lemma_replaced_absent(or_default(c.battery_text, "?"@), "{app}"@, or_default(c.active_app, "your app"@));
    lemma_brace_free_lacks(or_default(c.battery_text, "?"@), "{value}"@);
    lemma_replaced_absent(or_default(c.battery_text, "?"@), "{value}"@, or_default(e.value_text, c.cpu_text@));
    lemma_brace_free_lacks(or_default(c.battery_text, "?"@), "{title}"@);
    lemma_replaced_absent(or_default(c.battery_text, "?"@), "{title}"@, or_default(e.title, "Reminder"@));
    lemma_brace_free_lacks(or_default(c.battery_text, "?"@), "{message}"@);
    lemma_replaced_absent(or_default(c.battery_text, "?"@), "{message}"@, or_default(e.message, ""@));
    lemma_brace_free_lacks(or_default(c.battery_text, "?"@), "{editor}"@);
    lemma_replaced_absent(or_default(c.battery_text, "?"@), "{editor}"@, or_default(e.app_name, "your editor"@));
    // {app}
    lemma_placeholder_lacks("{app}"@, "{pet_name}"@);
    lemma_replaced_absent("{app}"@, "{pet_name}"@, c.pet_name@);
    lemma_placeholder_lacks("{app}"@, "{personality}"@);
    lemma_replaced_absent("{app}"@, "{personality}"@, c.personality@);
    lemma_placeholder_lacks("{app}"@, "{mood}"@);
    lemma_replaced_absent("{app}"@, "{mood}"@, c.mood@);
    lemma_placeholder_lacks("{app}"@, "{cpu}"@);
    lemma_replaced_absent("{app}"@, "{cpu}"@, c.cpu_text@);
    lemma_placeholder_lacks("{app}"@, "{ram}"@);
    lemma_replaced_absent("{app}"@, "{ram}"@, c.ram_text@);
    lemma_placeholder_lacks("{app}"@, "{battery}"@);
    lemma_replaced_absent("{app}"@, "{battery}"@, or_default(c.battery_text, "?"@));
    lemma_replaced_whole("{app}"@, or_default(c.active_app, "your app"@));
    lemma_brace_free_lacks(or_default(c.active_app, "your app"@), "{value}"@);
    lemma_replaced_absent(or_default(c.active_app, "your app"@), "{value}"@, or_default(e.value_text, c.cpu_text@));
    lemma_brace_free_lacks(or_default(c.active_app, "your app"@), "{title}"@);
    lemma_replaced_absent(or_default(c.active_app, "your app"@), "{title}"@, or_default(e.title, "Reminder"@));
    lemma_brace_free_lacks(or_default(c.active_app, "your app"@), "{message}"@);
    lemma_replaced_absent(or_default(c.active_app, "your app"@), "{message}"@, or_default(e.message, ""@));
    lemma_brace_free_lacks(or_default(c.active_app, "your app"@), "{editor}"@);
    lemma_replaced_absent(or_default(c.active_app, "your app"@), "{editor}"@, or_default(e.app_name, "your editor"@));
    // {value}
    lemma_placeholder_lacks("{value}"@, "{pet_name}"@);
    lemma_replaced_absent("{value}"@, "{pet_name}"@, c.pet_name@);
    lemma_placeholder_lacks("{value}"@, "{personality}"@);
    lemma_replaced_absent("{value}"@, "{personality}"@, c.personality@);
    lemma_placeholder_lacks("{value}"@, "{mood}"@);
    lemma_replaced_absent("{value}"@, "{mood}"@, c.mood@);
    lemma_placeholder_lacks("{value}"@, "{cpu}"@);
    lemma_replaced_absent("{value}"@, "{cpu}"@, c.cpu_text@);
    lemma_placeholder_lacks("{value}"@, "{ram}"@);
    lemma_replaced_absent("{value}"@, "{ram}"@, c.ram_text@);
    lemma_placeholder_lacks("{value}"@, "{battery}"@);
    lemma_replaced_absent("{value}"@, "{battery}"@, or_default(c.battery_text, "?"@));
    lemma_placeholder_lacks("{value}"@, "{app}"@);
    lemma_replaced_absent("{value}"@, "{app}"@, or_default(c.active_app, "your app"@));
    lemma_replaced_whole("{value}"@, or_default(e.value_text, c.cpu_text@));
    lemma_brace_free_lacks(or_default(e.value_text, c.cpu_text@), "{title}"@);
    lemma_replaced_absent(or_default(e.value_text, c.cpu_text@), "{title}"@, or_default(e.title, "Reminder"@));
    lemma_brace_free_lacks(or_default(e.value_text, c.cpu_text@), "{message}"@);
    lemma_replaced_absent(or_default(e.value_text, c.cpu_text@), "{message}"@, or_default(e.message, ""@));
    lemma_brace_free_lacks(or_default(e.value_text, c.cpu_text@), "{editor}"@);
    lemma_replaced_absent(or_default(e.value_text, c.cpu_text@), "{editor}"@, or_default(e.app_name, "your editor"@));
    // {title}
    lemma_placeholder_lacks("{title}"@, "{pet_name}"@);
    lemma_replaced_absent("{title}"@, "{pet_name}"@, c.pet_name@);
    lemma_placeholder_lacks("{title}"@, "{personality}"@);
    lemma_replaced_absent("{title}"@, "{personality}"@, c.personality@);
    lemma_placeholder_lacks("{title}"@, "{mood}"@);
    lemma_replaced_absent("{title}"@, "{mood}"@, c.mood@);
    lemma_placeholder_lacks("{title}"@, "{cpu}"@);
    lemma_replaced_absent("{title}"@, "{cpu}"@, c.cpu_text@);
    lemma_placeholder_lacks("{title}"@, "{ram}"@);
    lemma_replaced_absent("{title}"@, "{ram}"@, c.ram_text@);
    lemma_placeholder_lacks("{title}"@, "{battery}"@);
    lemma_replaced_absent("{title}"@, "{battery}"@, or_default(c.battery_text, "?"@));
    lemma_placeholder_lacks("{title}"@, "{app}"@);
    lemma_replaced_absent("{title}"@, "{app}"@, or_default(c.active_app, "your app"@));
    lemma_placeholder_lacks("{title}"@, "{value}"@);
    lemma_replaced_absent("{title}"@, "{value}"@, or_default(e.value_text, c.cpu_text@));
    lemma_replaced_whole("{title}"@, or_default(e.title, "Reminder"@));
    lemma_brace_free_lacks(or_default(e.title, "Reminder"@), "{message}"@);
    lemma_replaced_absent(or_default(e.title, "Reminder"@), "{message}"@, or_default(e.message, ""@));
    lemma_brace_free_lacks(or_default(e.title, "Reminder"@), "{editor}"@);
    lemma_replaced_absent(or_default(e.title, "Reminder"@), "{editor}"@, or_default(e.app_name, "your editor"@));
    // {message}
    lemma_placeholder_lacks("{message}"@, "{pet_name}"@);
    lemma_replaced_absent("{message}"@, "{pet_name}"@, c.pet_name@);
    lemma_placeholder_lacks("{message}"@, "{personality}"@);
    lemma_replaced_absent("{message}"@, "{personality}"@, c.personality@);
    lemma_placeholder_lacks("{message}"@, "{mood}"@);
    lemma_replaced_absent("{message}"@, "{mood}"@, c.mood@);
    lemma_placeholder_lacks("{message}"@, "{cpu}"@);
    lemma_replaced_absent("{message}"@, "{cpu}"@, c.cpu_text@);
    lemma_placeholder_lacks("{message}"@, "{ram}"@);
    lemma_replaced_absent("{message}"@, "{ram}"@, c.ram_text@);
    lemma_placeholder_lacks("{message}"@, "{battery}"@);
    lemma_replaced_absent("{message}"@, "{battery}"@, or_default(c.battery_text, "?"@));
    lemma_placeholder_lacks("{message}"@, "{app}"@);
    lemma_replaced_absent("{message}"@, "{app}"@, or_default(c.active_app, "your app"@));
    lemma_placeholder_lacks("{message}"@, "{value}"@);
    lemma_replaced_absent("{message}"@, "{value}"@, or_default(e.value_text, c.cpu_text@));
    lemma_placeholder_lacks("{message}"@, "{title}"@);
    lemma_replaced_absent("{message}"@, "{title}"@, or_default(e.title, "Reminder"@));
    lemma_replaced_whole("{message}"@, or_default(e.message, ""@));
    lemma_brace_free_lacks(or_default(e.message, ""@), "{editor}"@);
    lemma_replaced_absent(or_default(e.message, ""@), "{editor}"@, or_default(e.app_name, "your editor"@));
    // {editor}
    lemma_placeholder_lacks("{editor}"@, "{pet_name}"@);
    lemma_replaced_absent("{editor}"@, "{pet_name}"@, c.pet_name@);
    lemma_placeholder_lacks("{editor}"@, "{personality}"@);
    lemma_replaced_absent("{editor}"@, "{personality}"@, c.personality@);
    lemma_placeholder_lacks("{editor}"@, "{mood}"@);
    lemma_replaced_absent("{editor}"@, "{mood}"@, c.mood@);
    lemma_placeholder_lacks("{editor}"@, "{cpu}"@);
    lemma_replaced_absent("{editor}"@, "{cpu}"@, c.cpu_text@);
    lemma_placeholder_lacks("{editor}"@, "{ram}"@);
    lemma_replaced_absent("{editor}"@, "{ram}"@, c.ram_text@);
    lemma_placeholder_lacks("{editor}"@, "{battery}"@);
    lemma_replaced_absent("{editor}"@, "{battery}"@, or_default(c.battery_text, "?"@));
    lemma_placeholder_lacks("{editor}"@, "{app}"@);
    lemma_replaced_absent("{editor}"@, "{app}"@, or_default(c.active_app, "your app"@));
    lemma_placeholder_lacks("{editor}"@, "{value}"@);
    lemma_replaced_absent("{editor}"@, "{value}"@, or_default(e.value_text, c.cpu_text@));
    lemma_placeholder_lacks("{editor}"@, "{title}"@);
    lemma_replaced_absent("{editor}"@, "{title}"@, or_default(e.title, "Reminder"@));
    lemma_placeholder_lacks("{editor}"@, "{message}"@);
    lemma_replaced_absent("{editor}"@, "{message}"@, or_default(e.message, ""@));
    lemma_replaced_whole("{editor}"@, or_default(e.app_name, "your editor"@));
}

/// Picks one element with `rand::seq::SliceRandom::choose` and the thread's
/// random generator. Stated, as rand documents it: nothing is picked exactly
/// when the slice is empty, and what is picked is an element of it. Not
/// stated: which element, which is random.
#[verifier::external_body]
fn choose_template(templates: &Vec<String>) -> (r: Option<&String>)
    ensures
        (r is None) == (templates@.len() == 0),
        r matches Some(t) ==> templates@.contains(*t),
{
    templates.as_slice().choose(&mut rand::thread_rng())
}

impl FallbackProvider {
    pub fn new(rules: Vec<FallbackTemplates>) -> (p: Self)
        ensures
            p.rules == rules,
    {
        FallbackProvider { rules }
    }

    /// Index of the group of templates for `key`.
    pub fn find_group(&self, key: &str) -> (r: Option<usize>)
        ensures
            match r {
                Some(i) => i == group_from(self.rules@, key@, 0),
                None => group_from(self.rules@, key@, 0) == -1,
            },
    {
        let n = self.rules.len();
        let mut i: usize = 0;
        while i < n
            invariant
                n == self.rules@.len(),
                i <= n,
                group_from(self.rules@, key@, 0) == group_from(self.rules@, key@, i as int),
            decreases n - i,
        {
            if str_eq(self.rules[i].key.as_str(), key) {
                return Some(i);
            }
            i = i + 1;
        }
        None
    }

    /// A reply for an event from its templates, picked at random. Fails with
    /// "No fallback templates for <event>" when the event has no templates.
    pub fn complete_for_event(&self, event_type: PetEventType, context: &PromptContext, event: &PromptEvent) -> (r: Result<String, String>)
        ensures
            group_from(self.rules@, event_name(event_type), 0) == -1 ==> (r matches Err(m) && m@
                == "No fallback templates for "@ + event_name(event_type)),
            group_from(self.rules@, event_name(event_type), 0) != -1 ==> {
                let g = self.rules@[group_from(self.rules@, event_name(event_type), 0)];
                &&& g.templates@.len() == 0 ==> (r matches Err(m) && m@
                    == "No fallback templates for "@ + event_name(event_type))
                &&& g.templates@.len() > 0 ==> (r matches Ok(text) && exists|k: int|
                    0 <= k < g.templates@.len() && text@ == substituted(
                        #[trigger] g.templates@[k]@,
                        *context,
                        *event,
                    ))
            },
    {
        let key = event_key(event_type);
        match self.find_group(key) {
            None => Err(String::from_str("No fallback templates for ").concat(key)),
            Some(i) => {
                proof {
                    lemma_group_from_bounds(self.rules@, key@, 0);
                }
                match choose_template(&self.rules[i].templates) {
                    None => Err(String::from_str("No fallback templates for ").concat(key)),
                    Some(t) => {
                        let text = substitute(t.as_str(), context, event);
                        proof {
                            let g = self.rules@[i as int];
                            let k = choose|k: int| 0 <= k < g.templates@.len() && g.templates@[k] == *t;
                            assert(text@ == substituted(g.templates@[k]@, *context, *event));
                        }
                        Ok(text)
                    },
                }
            },
        }
    }
}

proof fn lemma_group_from_bounds(rules: Seq<FallbackTemplates>, key: Seq<char>, i: int)
    ensures
        group_from(rules, key, i) == -1 || (i <= group_from(rules, key, i) < rules.len()),
    decreases rules.len() - i,
{
    if !(i < 0 || i >= rules.len()) && rules[i].key@ != key {
        lemma_group_from_bounds(rules, key, i + 1);
    }
}

} // verus!
