use uwu_companion::ai::config::{
    config_response, connection_precheck, connection_result, effective_model, fallback_response,
    normalize_ai_settings, plan_provider, resolve_api_key, route_response, sanitize_response,
    trim_trailing_slashes, AiProviderKind, ProviderOutcome, ProviderPlan, SetAiConfigInput,
    StoredAiConfig, StoredApiKey,
};
use uwu_companion::ai::context::{mood_label, personality_tone, RecentEventsState, MAX_RECENT_EVENTS};
use uwu_companion::ai::prompt::{
    build_prompt, substitute, FallbackProvider, FallbackTemplates, PromptContext, PromptEvent,
};
use uwu_companion::events::{event_key, PetEventType};
use uwu_companion::reminders::PetMood;

fn config(provider: AiProviderKind, model: &str, url: &str) -> StoredAiConfig {
    StoredAiConfig { provider, model: model.to_string(), ollama_base_url: url.to_string() }
}

fn context() -> PromptContext {
    PromptContext {
        pet_name: "Mochi".to_string(),
        personality: "Sassy".to_string(),
        mood: "happy".to_string(),
        cpu_text: "42".to_string(),
        ram_text: "63".to_string(),
        battery_text: None,
        active_app: Some("Zed".to_string()),
        coding_session_duration: 120,
        recent_events: vec!["HighCpu".to_string(), "LevelUp".to_string()],
        time_of_day: "evening".to_string(),
        day_of_week: "Friday".to_string(),
    }
}

fn event(event_type: PetEventType) -> PromptEvent {
    PromptEvent {
        event_type,
        title: None,
        message: None,
        category: None,
        reminder_id: None,
        value_text: None,
        app_name: None,
    }
}

#[test]
fn provider_names_and_defaults() {
    assert_eq!(AiProviderKind::default(), AiProviderKind::Groq);
    assert_eq!(AiProviderKind::Disabled.as_str(), "none");
    assert_eq!(AiProviderKind::Gemini.default_model(), "gemini-2.0-flash");
    assert!(AiProviderKind::Groq.requires_api_key());
    assert!(!AiProviderKind::Ollama.requires_api_key());
    let d = StoredAiConfig::default();
    assert_eq!(d.model, "llama3-8b-8192");
    assert_eq!(d.ollama_base_url, "http://localhost:11434");
}

#[test]
fn blank_model_falls_back_to_the_default() {
    assert_eq!(effective_model(&config(AiProviderKind::Ollama, "  ", "")), "llama3");
    assert_eq!(effective_model(&config(AiProviderKind::Ollama, "mistral", "")), "mistral");
}

#[test]
fn provider_plans() {
    assert_eq!(trim_trailing_slashes("http://h:1///"), "http://h:1");
    match plan_provider(&config(AiProviderKind::Ollama, "", "http://h:1//"), None) {
        Ok(ProviderPlan::Ollama { base_url, model }) => {
            assert_eq!(base_url, "http://h:1");
            assert_eq!(model, "llama3");
        }
        other => panic!("unexpected plan {:?}", other),
    }
    match plan_provider(&config(AiProviderKind::Groq, "m", ""), Some("key".to_string())) {
        Ok(ProviderPlan::Groq { api_key, model }) => {
            assert_eq!(api_key, "key");
            assert_eq!(model, "m");
        }
        other => panic!("unexpected plan {:?}", other),
    }
    assert_eq!(
        plan_provider(&config(AiProviderKind::Groq, "m", ""), Some("  ".to_string())).unwrap_err(),
        "Groq API key is missing. Add one in AI settings."
    );
    assert_eq!(
        plan_provider(&config(AiProviderKind::Gemini, "", ""), None).unwrap_err(),
        "Gemini API key is missing. Add one in AI settings."
    );
    assert_eq!(
        plan_provider(&config(AiProviderKind::Disabled, "", ""), None).unwrap_err(),
        "No AI provider configured"
    );
}

#[test]
fn api_key_resolution_order() {
    assert_eq!(
        resolve_api_key(StoredApiKey::Text("stored".to_string()), Some("env".to_string())),
        Ok(Some("stored".to_string()))
    );
    assert_eq!(
        resolve_api_key(StoredApiKey::Text(" ".to_string()), Some("env".to_string())),
        Ok(Some("env".to_string()))
    );
    assert_eq!(resolve_api_key(StoredApiKey::Missing, Some("".to_string())), Ok(None));
    assert_eq!(resolve_api_key(StoredApiKey::Missing, None), Ok(None));
    assert_eq!(
        resolve_api_key(StoredApiKey::NotText, Some("env".to_string())),
        Err("Stored API key is invalid".to_string())
    );
}

#[test]
fn settings_are_normalized_before_storing() {
    let input = SetAiConfigInput {
        provider: AiProviderKind::Gemini,
        model: "  ".to_string(),
        ollama_base_url: " ".to_string(),
        api_key: Some("  abc  ".to_string()),
    };
    let (stored, key) = normalize_ai_settings(&input);
    assert_eq!(stored.provider, AiProviderKind::Gemini);
    assert_eq!(stored.model, "gemini-2.0-flash");
    assert_eq!(stored.ollama_base_url, "http://localhost:11434");
    assert_eq!(key, Some("abc".to_string()));
    let blank_key = SetAiConfigInput { api_key: Some("   ".to_string()), ..input.clone() };
    assert_eq!(normalize_ai_settings(&blank_key).1, None);
    let r = config_response(stored, true);
    assert!(r.has_api_key);
    assert_eq!(r.model, "gemini-2.0-flash");
}

#[test]
fn replies_are_routed_or_left_to_the_fallback() {
    let r = route_response(
        AiProviderKind::Groq,
        ProviderOutcome::Replied("  **Hi**  there\n`you` ".to_string()),
    )
    .unwrap();
    assert_eq!(r.text, "Hi there you");
    assert_eq!(r.source, "groq");
    assert!(route_response(AiProviderKind::Groq, ProviderOutcome::Replied("  ".to_string())).is_none());
    assert!(route_response(AiProviderKind::Groq, ProviderOutcome::TimedOut).is_none());
    assert!(route_response(AiProviderKind::Groq, ProviderOutcome::Failed("x".to_string())).is_none());
    assert_eq!(sanitize_response("# Title"), "Title");
    let f = fallback_response("hello".to_string());
    assert_eq!(f.source, "fallback");
    assert_eq!(f.text, "hello");
}

#[test]
fn connection_tests() {
    let none = connection_precheck(&config(AiProviderKind::Disabled, "", ""), &None).unwrap_err();
    assert!(none.ok);
    assert_eq!(none.model, "fallback");
    let missing = connection_precheck(&config(AiProviderKind::Groq, "", ""), &None).unwrap_err();
    assert!(!missing.ok);
    assert_eq!(missing.message, "API key is required for the selected provider.");
    assert_eq!(missing.model, "llama3-8b-8192");
    assert_eq!(
        connection_precheck(&config(AiProviderKind::Ollama, "", ""), &None).unwrap(),
        "llama3"
    );

    let ok = connection_result("llama3".to_string(), ProviderOutcome::Replied("pong".to_string()));
    assert!(ok.ok);
    assert_eq!(ok.message, "Connected — llama3 ready");
    let empty = connection_result("m".to_string(), ProviderOutcome::Replied(" ".to_string()));
    assert!(!empty.ok);
    assert_eq!(empty.message, "Provider returned an empty response.");
    let slow = connection_result("m".to_string(), ProviderOutcome::TimedOut);
    assert_eq!(slow.message, "Connection timed out after 3 seconds.");
    let err = connection_result("m".to_string(), ProviderOutcome::Failed("boom".to_string()));
    assert_eq!(err.message, "boom");
}

#[test]
fn recent_events_keep_the_last_five() {
    let mut s = RecentEventsState::new();
    assert!(s.snapshot().is_empty());
    for name in ["a", "b", "c", "d", "e", "f", "g"] {
        s.push(name);
    }
    let snap = s.snapshot();
    assert_eq!(snap.len(), MAX_RECENT_EVENTS);
    assert_eq!(snap, vec!["c", "d", "e", "f", "g"]);
}

#[test]
fn tones_and_mood_labels() {
    assert_eq!(personality_tone("  SASSY "), "Playfully sarcastic but caring");
    assert_eq!(personality_tone("calm"), "Calm, gentle, and reassuring");
    assert_eq!(personality_tone("Motivational"), "Direct, energizing, and goal-focused");
    assert_eq!(personality_tone("weird"), "Upbeat, encouraging, and cheerful");
    assert_eq!(mood_label(PetMood::Sleepy), "sleepy");
    assert_eq!(event_key(PetEventType::CodingSessionStarted), "CodingSessionStarted");
}

#[test]
fn prompt_describes_the_situation() {
    let mut e = event(PetEventType::HighCpu);
    e.value_text = Some("97".to_string());
    let prompt = build_prompt(&context(), &e);
    assert_eq!(
        prompt,
        "You are Mochi, a desktop pet companion with a Sassy personality.\n\
         Tone: Playfully sarcastic but caring. Current mood: happy.\n\
         Context: CPU 42%, RAM 63%, battery unknown, active app \"Zed\", coding session 120s, \
         time evening on Friday, recent events: HighCpu, LevelUp.\n\
         Rules: Reply in plain text only, no markdown, at most 2 casual sentences, under 80 tokens, stay in character.\n\
         Event: HighCpu. CPU usage is high at 97%\n\
         Respond as Mochi:"
    );
    let mut c = context();
    c.recent_events.clear();
    c.battery_text = Some("55".to_string());
    let p = build_prompt(&c, &event(PetEventType::ReminderFired));
    assert!(p.contains("battery 55%"));
    assert!(p.contains("recent events: none."));
    assert!(p.contains("Event: ReminderFired. Reminder fired: Reminder — \n"));
}

#[test]
fn templates_are_filled_in() {
    let mut e = event(PetEventType::ReminderFired);
    e.title = Some("Water".to_string());
    let s = substitute("{pet_name} says {title}: {message}! {battery} {app} {value} {editor}", &context(), &e);
    assert_eq!(s, "Mochi says Water: ! ? Zed 42 your editor");
}

#[test]
fn fallback_picks_a_template_of_the_event() {
    let provider = FallbackProvider::new(vec![
        FallbackTemplates { key: "HighCpu".to_string(), templates: vec!["Hot {cpu}".to_string()] },
        FallbackTemplates { key: "LevelUp".to_string(), templates: Vec::new() },
    ]);
    assert_eq!(provider.find_group("LevelUp"), Some(1));
    assert_eq!(provider.find_group("Nope"), None);
    let e = event(PetEventType::HighCpu);
    assert_eq!(provider.complete_for_event(PetEventType::HighCpu, &context(), &e), Ok("Hot 42".to_string()));
    assert_eq!(
        provider.complete_for_event(PetEventType::LevelUp, &context(), &e),
        Err("No fallback templates for LevelUp".to_string())
    );
    assert_eq!(
        provider.complete_for_event(PetEventType::IdleDetected, &context(), &e),
        Err("No fallback templates for IdleDetected".to_string())
    );
}

#[test]
fn saving_ai_settings_twice_changes_nothing() {
    for provider in [AiProviderKind::Disabled, AiProviderKind::Groq, AiProviderKind::Gemini, AiProviderKind::Ollama] {
        let input = SetAiConfigInput {
            provider,
            model: "   ".to_string(),
            ollama_base_url: "  http://h:1 ".to_string(),
            api_key: Some(" k ".to_string()),
        };
        let (stored, key) = normalize_ai_settings(&input);
        let again_input = SetAiConfigInput {
            provider: stored.provider,
            model: stored.model.clone(),
            ollama_base_url: stored.ollama_base_url.clone(),
            api_key: key.clone(),
        };
        let (again, again_key) = normalize_ai_settings(&again_input);
        assert_eq!(again.provider, stored.provider);
        assert_eq!(again.model, stored.model);
        assert_eq!(again.ollama_base_url, stored.ollama_base_url);
        assert_eq!(again_key, key);
    }
}

#[test]
fn provider_replies_are_trimmed_or_empty() {
    match uwu_companion::ai::config::provider_reply("  hi there \n".to_string()) {
        ProviderOutcome::Replied(t) => assert_eq!(t, "hi there"),
        other => panic!("unexpected {:?}", other),
    }
    match uwu_companion::ai::config::provider_reply(" \t ".to_string()) {
        ProviderOutcome::Failed(e) => assert_eq!(e, "Ollama returned an empty response"),
        other => panic!("unexpected {:?}", other),
    }
}
