use uwu_companion::customization::{name_le, name_order};
use uwu_companion::customization::first_occurrences;
use uwu_companion::tts::find_voice;
use uwu_companion::clock::{chrono_now, timestamp_from};
use uwu_companion::config::WindowPosition;
use uwu_companion::customization::{
    builtin_skin_manifests, builtin_sound_pack_manifests, check_bundle_version, is_builtin_skin,
    manifest_id, personality_info,
};
use uwu_companion::quotes::{
    build_quote_prompt, builtin_quote_types, finish_quote, normalize_quote_config,
    normalize_quote_type, quote_due, sanitize_quote, QuoteConfig, QuoteSchedulerState,
};
use uwu_companion::tts::{
    piper_model_path, piper_voices, plan_speech, system_voice, voice_source, SapiSpeaker,
    SpeakPlan, TtsProviderKind, VoiceSource,
};

#[test]
fn quote_kinds_and_defaults() {
    assert_eq!(builtin_quote_types(), vec!["funny", "motivational", "coding", "wisdom", "chill"]);
    let d = QuoteConfig::default();
    assert!(!d.enabled);
    assert_eq!(d.interval_minutes, 5);
    assert_eq!(d.selected_type, "motivational");
    assert_eq!(normalize_quote_type("  coding "), "coding");
    assert_eq!(normalize_quote_type("   "), "motivational");
}

#[test]
fn quote_settings_are_normalized() {
    let c = QuoteConfig {
        enabled: true,
        interval_minutes: 0,
        selected_type: "".to_string(),
        custom_types: vec![" pirate ".to_string(), "  ".to_string(), "haiku".to_string()],
    };
    let n = normalize_quote_config(&c);
    assert!(n.enabled);
    assert_eq!(n.interval_minutes, 1);
    assert_eq!(n.selected_type, "motivational");
    assert_eq!(n.custom_types, vec!["pirate", "haiku"]);
    let long = QuoteConfig { interval_minutes: 5000, ..c.clone() };
    assert_eq!(normalize_quote_config(&long).interval_minutes, 1440);
    let mid = QuoteConfig { interval_minutes: 30, ..c };
    assert_eq!(normalize_quote_config(&mid).interval_minutes, 30);
}

#[test]
fn quote_text_is_cleaned() {
    assert_eq!(sanitize_quote("  \"Keep **going**\"  "), "Keep going");
    assert_eq!(finish_quote("\"Ship it.\""), Ok("Ship it.".to_string()));
    assert_eq!(finish_quote(" ** \"\" "), Err("AI returned an empty quote.".to_string()));
    assert_eq!(
        build_quote_prompt("coding", "Mochi"),
        "Write exactly one short coding quote for a friendly desktop pet companion named Mochi. \
         Maximum 18 words. Plain text only — no quotes, no author name, no emoji, no markdown."
    );
}

#[test]
fn quotes_are_due_after_the_interval() {
    let on = QuoteConfig { enabled: true, ..QuoteConfig::default() };
    let state = QuoteSchedulerState::new(on.clone());
    assert_eq!(state.last_fired_at, 0);
    assert!(quote_due(&state.config, 0, 10));
    assert!(!quote_due(&on, 1000, 1299));
    assert!(quote_due(&on, 1000, 1300));
    assert!(!quote_due(&QuoteConfig::default(), 0, 10));
}

#[test]
fn speech_goes_to_the_chosen_engine() {
    assert_eq!(TtsProviderKind::default(), TtsProviderKind::WebSpeech);
    assert!(SapiSpeaker::new().is_ok());
    assert!(matches!(plan_speech(TtsProviderKind::WebSpeech, None, "hi"), SpeakPlan::Nothing));
    assert!(matches!(plan_speech(TtsProviderKind::Silent, None, "hi"), SpeakPlan::Nothing));
    match plan_speech(TtsProviderKind::WebSpeech, Some(TtsProviderKind::WindowsSapi), "  hi  ") {
        SpeakPlan::Sapi(t) => assert_eq!(t, "hi"),
        other => panic!("unexpected plan {:?}", other),
    }
    match plan_speech(TtsProviderKind::Piper, None, "hello ") {
        SpeakPlan::Piper(t) => assert_eq!(t, "hello"),
        other => panic!("unexpected plan {:?}", other),
    }
    assert!(matches!(plan_speech(TtsProviderKind::Piper, None, "   "), SpeakPlan::Nothing));
}

#[test]
fn voices() {
    assert_eq!(voice_source(TtsProviderKind::WindowsSapi), VoiceSource::Sapi);
    assert_eq!(voice_source(TtsProviderKind::Piper), VoiceSource::Piper);
    assert_eq!(voice_source(TtsProviderKind::Silent), VoiceSource::NoVoices);
    let p = piper_voices();
    assert_eq!(p.len(), 1);
    assert_eq!(p[0].id, "piper-default");
    assert_eq!(p[0].language.as_deref(), Some("en"));
    assert!(system_voice(String::new(), String::new(), "en-US".to_string()).is_none());
    let v = system_voice(String::new(), "Zira".to_string(), "en-US".to_string()).unwrap();
    assert_eq!(v.id, "Zira");
    assert_eq!(v.language.as_deref(), Some("en-US"));
    let w = system_voice("id1".to_string(), "Zira".to_string(), "en-US".to_string()).unwrap();
    assert_eq!(w.id, "id1");
    assert_eq!(piper_model_path("  /m/voice.onnx "), Ok("/m/voice.onnx"));
    assert_eq!(piper_model_path(" "), Err("Piper model path is not configured.".to_string()));
}

#[test]
fn builtin_customizations() {
    assert!(is_builtin_skin("default"));
    assert!(is_builtin_skin("ghosty"));
    assert!(!is_builtin_skin("Ghosty"));
    let skins = builtin_skin_manifests();
    assert_eq!(skins.len(), 2);
    assert_eq!(skins[1].name, "Ghosty");
    assert_eq!(skins[0].frame_width, 64);
    assert!(skins.iter().all(|s| s.builtin && s.asset_path.is_none()));
    let packs = builtin_sound_pack_manifests();
    assert_eq!(packs[0].id, "default");
}

#[test]
fn manifests_and_personalities() {
    assert_eq!(manifest_id(Some("a".into()), Some("b".into()), "missing"), Ok("a".to_string()));
    assert_eq!(manifest_id(None, Some("b".into()), "missing"), Ok("b".to_string()));
    assert_eq!(manifest_id(None, None, "Invalid skin id"), Err("Invalid skin id".to_string()));
    let p = personality_info("sassy", None);
    assert_eq!(p.id, "Sassy");
    assert_eq!(p.name, "Sassy");
    let q = personality_info("calm", Some("Zen Master".to_string()));
    assert_eq!(q.id, "Calm");
    assert_eq!(q.name, "Zen Master");
    assert_eq!(check_bundle_version("1.0.0"), Ok(()));
    assert_eq!(check_bundle_version("2.0"), Err("Unsupported bundle version: 2.0".to_string()));
}

#[test]
fn clock_readings() {
    assert_eq!(timestamp_from(Some(1_700_000_000)), 1_700_000_000);
    assert_eq!(timestamp_from(None), 0);
    assert!(chrono_now() > 1_600_000_000);
    let p = WindowPosition { x: -3, y: 40 };
    assert_eq!(p, WindowPosition { x: -3, y: 40 });
}

#[test]
fn names_sort_stably() {
    assert!(name_le("Alpha", "Beta"));
    assert!(name_le("Alp", "Alpha"));
    assert!(!name_le("alpha", "Beta"));
    assert!(name_le("same", "same"));
    let names: Vec<String> = ["Zed", "Ghost", "Apple", "Ghost", "Banana"].iter().map(|s| s.to_string()).collect();
    assert_eq!(name_order(&names), vec![2, 4, 1, 3, 0]);
    assert!(name_order(&Vec::new()).is_empty());
}

#[test]
fn duplicate_identifiers_keep_the_first() {
    let ids: Vec<String> = ["Calm", "Sassy", "Calm", "Zen", "Sassy"].iter().map(|s| s.to_string()).collect();
    assert_eq!(first_occurrences(&ids), vec![0, 1, 3]);
}

#[test]
fn system_voice_lookup() {
    let ids = vec!["v1".to_string(), "v2".to_string(), "v3".to_string()];
    let names = vec!["Zira".to_string(), "David".to_string(), "v1".to_string()];
    assert_eq!(find_voice(&ids, &names, "David"), Some(1));
    assert_eq!(find_voice(&ids, &names, "v1"), Some(0));
    assert_eq!(find_voice(&ids, &names, ""), None);
    assert_eq!(find_voice(&ids, &names, "Hazel"), None);
}

#[test]
fn saving_quote_settings_twice_changes_nothing() {
    let c = QuoteConfig {
        enabled: true,
        interval_minutes: 0,
        selected_type: "  ".to_string(),
        custom_types: vec!["  a ".to_string(), "".to_string(), "b".to_string()],
    };
    let once = normalize_quote_config(&c);
    let twice = normalize_quote_config(&once);
    assert_eq!(twice.interval_minutes, once.interval_minutes);
    assert_eq!(twice.selected_type, once.selected_type);
    assert_eq!(twice.custom_types, once.custom_types);
    assert_eq!(twice.enabled, once.enabled);
}

#[test]
fn piper_falls_back_to_the_system_voice() {
    use_fallback("hi", true, true, true);
    use_fallback("hi", false, true, false);
    use_fallback("hi", true, false, false);
}

fn use_fallback(text: &str, binary: bool, model: bool, piper: bool) {
    match uwu_companion::tts::piper_or_fallback(text.to_string(), binary, model) {
        SpeakPlan::Piper(t) => {
            assert!(piper);
            assert_eq!(t, text);
        }
        SpeakPlan::Sapi(t) => {
            assert!(!piper);
            assert_eq!(t, text);
        }
        SpeakPlan::Nothing => panic!("nothing planned"),
    }
}
