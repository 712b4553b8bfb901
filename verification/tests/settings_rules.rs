use fixtext::defaults::{
    default_models, default_profiles, default_provider, default_settings, default_shortcut_ctrl,
    default_shortcut_enabled, default_shortcut_key, default_shortcut_presses,
    default_shortcut_window_ms, default_status_overlay_enabled, fresh_state,
};
use fixtext::settings::{
    apply_transform_overrides, check_clipboard_text, select_profile, selected_model_id,
    selected_provider_id, should_paste, transform_result, validate_model_id_for_provider,
    validate_profiles, validate_provider_id, validate_settings, validate_state, PromptProfile,
    Settings, DEFAULT_TEMPERATURE_BITS,
};

fn profile(id: &str, title: &str, instructions: &str) -> PromptProfile {
    PromptProfile { id: id.to_string(), title: title.to_string(), instructions: instructions.to_string() }
}

fn gemini_settings() -> Settings {
    let mut s = default_settings();
    s.selected_provider = "gemini".to_string();
    s.selected_model = "gemini-2.5-flash".to_string();
    s
}

#[test]
fn defaults_of_a_fresh_configuration() {
    assert_eq!(default_provider(), "groq");
    assert!(default_status_overlay_enabled());
    assert!(default_shortcut_enabled());
    assert_eq!(default_shortcut_key(), "C");
    assert!(default_shortcut_ctrl());
    assert_eq!(default_shortcut_presses(), 2);
    assert_eq!(default_shortcut_window_ms(), 650);
    let s = default_settings();
    assert_eq!(s.selected_provider, "groq");
    assert_eq!(s.selected_model, "llama-3.3-70b-versatile");
    assert_eq!(s.selected_profile, "fix");
    assert_eq!(s.max_output_tokens, 512);
    assert_eq!(f32::from_bits(s.temperature_bits), 0.2f32);
    assert_eq!(DEFAULT_TEMPERATURE_BITS, 0.2f32.to_bits());
    assert!(s.auto_paste && s.show_window_on_start && s.shortcut_enabled && s.show_status_overlay);
    assert!(s.shortcut_ctrl && !s.shortcut_alt && !s.shortcut_shift && !s.shortcut_win);
    assert_eq!(s.thinking_level, "minimal");
    assert!(s.api_key.is_empty() && s.groq_api_key.is_empty() && s.custom_model.is_empty());
    let p = default_profiles();
    assert_eq!(p.len(), 1);
    assert_eq!(p[0].id, "fix");
    assert_eq!(p[0].title, "Fix");
    assert!(p[0].instructions.starts_with("Corrige el texto de forma minima."));
    assert!(p[0].instructions.ends_with("Sin explicaciones, comentarios ni comillas."));
}

#[test]
fn fresh_configuration_is_valid() {
    assert_eq!(validate_state(&default_settings(), &default_profiles()), Ok(()));
    let fresh = fresh_state(Some("from-env".to_string()));
    assert_eq!(fresh.settings.api_key, "from-env");
    assert_eq!(validate_state(&fresh.settings, &fresh.profiles), Ok(()));
    assert_eq!(fresh_state(None).settings.api_key, "");
}

#[test]
fn default_models_are_free_and_valid() {
    let models = default_models();
    assert_eq!(models.len(), 13);
    assert_eq!(models[0].id, "gemini-3.1-flash-lite");
    assert_eq!(models[7].id, "llama-3.3-70b-versatile");
    assert_eq!(models[7].label, "Groq Llama 3.3 70B");
    assert_eq!(models[12].provider, "groq");
    for m in &models {
        assert!(m.free_tier);
        assert_eq!(validate_provider_id(&m.provider), Ok(()));
        assert_eq!(validate_model_id_for_provider(&m.provider, &m.id), Ok(()));
    }
    assert_eq!(models.iter().filter(|m| m.provider == "gemini").count(), 5);
}

#[test]
fn provider_ids() {
    assert_eq!(validate_provider_id("gemini"), Ok(()));
    assert_eq!(validate_provider_id("groq"), Ok(()));
    assert_eq!(validate_provider_id("Groq"), Err("Provider must be gemini or groq".to_string()));
    assert_eq!(validate_provider_id(""), Err("Provider must be gemini or groq".to_string()));
}

#[test]
fn model_ids() {
    assert_eq!(validate_model_id_for_provider("groq", "openai/gpt-oss-20b"), Ok(()));
    assert_eq!(validate_model_id_for_provider("gemini", "gemini-2.5-flash"), Ok(()));
    assert_eq!(validate_model_id_for_provider("gemini", "models/gemini"), Err("Gemini model id must not include a provider prefix or slash".to_string()));
    assert_eq!(validate_model_id_for_provider("groq", ""), Err("groq model id is invalid".to_string()));
    assert_eq!(validate_model_id_for_provider("gemini", "a b"), Err("gemini model id is invalid".to_string()));
    for bad in ["x?y", "x&y", "x#y", "x\u{a0}y", "x\n"] {
        assert_eq!(validate_model_id_for_provider("groq", bad), Err("groq model id is invalid".to_string()));
    }
    assert_eq!(validate_model_id_for_provider("gemini", "bad/ one"), Err("gemini model id is invalid".to_string()));
}

#[test]
fn selection_of_provider_and_model() {
    let mut s = default_settings();
    assert_eq!(selected_provider_id(&s), "groq");
    s.selected_provider = "anything".to_string();
    assert_eq!(selected_provider_id(&s), "gemini");
    assert_eq!(selected_model_id(&s), "llama-3.3-70b-versatile");
    s.selected_model = "custom".to_string();
    s.custom_model = "  my-model \t".to_string();
    assert_eq!(selected_model_id(&s), "my-model");
}

#[test]
fn settings_errors_in_order() {
    let ok = default_settings();
    assert_eq!(validate_settings(&ok), Ok(()));
    let mut s = ok.clone();
    s.max_output_tokens = 0;
    assert_eq!(validate_settings(&s), Err("Max output tokens must be between 1 and 4096".to_string()));
    s.max_output_tokens = 4097;
    s.shortcut_key = "??".to_string();
    assert_eq!(validate_settings(&s), Err("Max output tokens must be between 1 and 4096".to_string()));
    let mut s = ok.clone();
    s.max_output_tokens = 4096;
    for t in [2.5f32, -0.1, f32::NAN, f32::INFINITY, 2.0000002] {
        s.temperature_bits = t.to_bits();
        assert_eq!(validate_settings(&s), Err("Temperature must be between 0 and 2".to_string()), "{}", t);
    }
    for t in [0.0f32, -0.0, 2.0, 1.0, 1e-40] {
        s.temperature_bits = t.to_bits();
        assert_eq!(validate_settings(&s), Ok(()), "{}", t);
    }
    let mut s = ok.clone();
    s.shortcut_key = "F13".to_string();
    assert_eq!(validate_settings(&s), Err("Shortcut key must be A-Z, 0-9, or F1-F12".to_string()));
    let mut s = ok.clone();
    s.shortcut_presses = 5;
    assert_eq!(validate_settings(&s), Err("Shortcut press count must be between 1 and 4".to_string()));
    s.shortcut_presses = 0;
    assert_eq!(validate_settings(&s), Err("Shortcut press count must be between 1 and 4".to_string()));
    let mut s = ok.clone();
    s.shortcut_window_ms = 149;
    assert_eq!(validate_settings(&s), Err("Shortcut window must be between 150 and 2000 ms".to_string()));
    s.shortcut_window_ms = 2001;
    assert_eq!(validate_settings(&s), Err("Shortcut window must be between 150 and 2000 ms".to_string()));
    s.shortcut_window_ms = 2000;
    assert_eq!(validate_settings(&s), Ok(()));
    let mut s = gemini_settings();
    s.selected_model = "custom".to_string();
    s.custom_model = "  ".to_string();
    assert_eq!(validate_settings(&s), Err("gemini model id is invalid".to_string()));
    s.custom_model = " google/gemini ".to_string();
    assert_eq!(validate_settings(&s), Err("Gemini model id must not include a provider prefix or slash".to_string()));
    s.selected_provider = "groq".to_string();
    assert_eq!(validate_settings(&s), Ok(()));
}

#[test]
fn profile_rules() {
    assert_eq!(validate_profiles(&[]), Err("At least one prompt profile is required".to_string()));
    assert_eq!(validate_profiles(&[profile("a", "A", "do")]), Ok(()));
    assert_eq!(validate_profiles(&[profile(" ", "A", "do")]), Err("Prompt profiles need an id and title".to_string()));
    assert_eq!(validate_profiles(&[profile("a", "A", "do"), profile("b", "", "do")]), Err("Prompt profiles need an id and title".to_string()));
    assert_eq!(validate_profiles(&[profile("a", "Mine", " \n")]), Err("Prompt profile 'Mine' has empty instructions".to_string()));
    assert_eq!(validate_profiles(&[profile("a", "First", ""), profile("", "", "")]), Err("Prompt profile 'First' has empty instructions".to_string()));
    let mut s = default_settings();
    s.max_output_tokens = 0;
    assert_eq!(validate_state(&s, &[]), Err("Max output tokens must be between 1 and 4096".to_string()));
    assert_eq!(validate_state(&default_settings(), &[]), Err("At least one prompt profile is required".to_string()));
}

#[test]
fn profile_selection() {
    let ps = vec![profile("fix", "Fix", "a"), profile("formal", "Formal", "b"), profile("formal", "Again", "c")];
    assert_eq!(select_profile(&ps, "formal"), Ok(1));
    assert_eq!(select_profile(&ps, "fix"), Ok(0));
    assert_eq!(select_profile(&ps, "missing"), Ok(0));
    assert_eq!(select_profile(&[], "fix"), Err("no prompt profiles available".to_string()));
}

#[test]
fn clipboard_text_check_and_paste_rule() {
    assert_eq!(check_clipboard_text("hola"), Ok(()));
    assert_eq!(check_clipboard_text(" \r\n"), Err("Clipboard is empty".to_string()));
    assert_eq!(check_clipboard_text(""), Err("Clipboard is empty".to_string()));
    let mut s = default_settings();
    assert!(should_paste(&s, false));
    s.auto_paste = false;
    assert!(!should_paste(&s, false));
    assert!(should_paste(&s, true));
}

#[test]
fn transform_overrides() {
    let mut base = default_settings();
    base.custom_model = "kept".to_string();
    let r = apply_transform_overrides(base.clone(), Some(" gemini ".to_string()), None).unwrap();
    assert_eq!(r.selected_provider, "gemini");
    assert_eq!(r.selected_model, "llama-3.3-70b-versatile");
    assert_eq!(r.custom_model, "kept");
    let r = apply_transform_overrides(base.clone(), Some("gemini".to_string()), Some("  gemini-2.5-flash ".to_string())).unwrap();
    assert_eq!(r.selected_model, "gemini-2.5-flash");
    assert_eq!(r.custom_model, "");
    assert_eq!(r.max_output_tokens, base.max_output_tokens);
    assert_eq!(apply_transform_overrides(base.clone(), Some("openai".to_string()), Some("x".to_string())).unwrap_err(), "Provider must be gemini or groq");
    assert_eq!(apply_transform_overrides(base.clone(), Some("gemini".to_string()), Some("a/b".to_string())).unwrap_err(), "Gemini model id must not include a provider prefix or slash");
    assert_eq!(apply_transform_overrides(base.clone(), None, Some("a/b".to_string())).unwrap().selected_model, "a/b");
    assert_eq!(apply_transform_overrides(base.clone(), None, Some(" ".to_string())).unwrap_err(), "groq model id is invalid");
    let r = apply_transform_overrides(base.clone(), None, None).unwrap();
    assert_eq!(r.selected_provider, base.selected_provider);
    assert_eq!(r.custom_model, "kept");
}

#[test]
fn transform_result_names_provider_and_model() {
    let mut s = gemini_settings();
    s.selected_model = "custom".to_string();
    s.custom_model = " g-1 ".to_string();
    let r = transform_result(&s, "in".to_string(), "out".to_string(), "Fix".to_string());
    assert_eq!(r.input, "in");
    assert_eq!(r.output, "out");
    assert_eq!(r.profile, "Fix");
    assert_eq!(r.provider, "gemini");
    assert_eq!(r.model, "g-1");
}
