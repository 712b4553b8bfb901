use fixtext::defaults::{default_profiles, default_settings};
use fixtext::flow::{FixEffect, FixEvent, RewriteFlow};
use fixtext::generation::{check_api_key, decode_reply};
use fixtext::paths::project_error_log_path_from;
use fixtext::settings::{PromptProfile, Settings};

fn groq_settings() -> Settings {
    let mut s = default_settings();
    s.groq_api_key = " gsk-test ".to_string();
    s
}

const GROQ_REPLY: &str = r#"{"choices":[{"message":{"content":"Hola, mundo."}}]}"#;

fn status_of(e: &FixEffect) -> Option<(&str, &str)> {
    match e {
        FixEffect::Status(stage, message) => Some((stage.as_str(), message.as_str())),
        _ => None,
    }
}

fn fail_of(effects: &[FixEffect]) -> Option<&str> {
    match effects.last() {
        Some(FixEffect::Fail(e)) => Some(e.as_str()),
        _ => None,
    }
}

#[test]
fn clipboard_fix_runs_every_step_in_order() {
    let profiles = default_profiles();
    let (mut flow, effects) = RewriteFlow::fix_clipboard(groq_settings(), &profiles, false);
    assert_eq!(effects.len(), 1);
    assert!(matches!(effects[0], FixEffect::ReadClipboard));

    let effects = flow.step(FixEvent::ClipboardRead(Ok("hola mundo".to_string())));
    assert_eq!(effects.len(), 3);
    assert_eq!(status_of(&effects[0]), Some(("copied", "Copied clipboard text")));
    assert_eq!(status_of(&effects[1]), Some(("api-key", "groq API key loaded")));
    match &effects[2] {
        FixEffect::SerializeBody(body) => {
            let model = body.get("model").and_then(|m| m.as_str()).cloned();
            assert_eq!(model, Some("llama-3.3-70b-versatile".to_string()));
        }
        other => panic!("unexpected effect {other:?}"),
    }

    let effects = flow.step(FixEvent::BodySerialized("{\"model\":\"x\"}".to_string()));
    assert_eq!(effects.len(), 2);
    assert_eq!(status_of(&effects[0]), Some(("sent", "Sent request to Groq")));
    match &effects[1] {
        FixEffect::Post(r) => {
            assert_eq!(r.host, "api.groq.com");
            assert_eq!(r.path, "/openai/v1/chat/completions");
            assert!(r.headers.ends_with("Authorization: Bearer gsk-test\r\n"));
            assert_eq!(r.body, "{\"model\":\"x\"}");
        }
        other => panic!("unexpected effect {other:?}"),
    }

    let effects = flow.step(FixEvent::Replied(Ok(GROQ_REPLY.as_bytes().to_vec())));
    assert_eq!(effects.len(), 2);
    assert_eq!(status_of(&effects[0]), Some(("received", "Received Groq response")));
    match &effects[1] {
        FixEffect::WriteClipboard(t) => assert_eq!(t, "Hola, mundo."),
        other => panic!("unexpected effect {other:?}"),
    }

    let effects = flow.step(FixEvent::ClipboardWritten(Ok(())));
    assert_eq!(effects.len(), 4);
    assert_eq!(status_of(&effects[0]), Some(("pasting", "Pasting result")));
    assert!(matches!(effects[1], FixEffect::Paste));
    assert_eq!(status_of(&effects[2]), Some(("done", "Clipboard updated")));
    match &effects[3] {
        FixEffect::Done(r) => {
            assert_eq!(r.input, "hola mundo");
            assert_eq!(r.output, "Hola, mundo.");
            assert_eq!(r.provider, "groq");
            assert_eq!(r.model, "llama-3.3-70b-versatile");
            assert_eq!(r.profile, "Fix");
        }
        other => panic!("unexpected effect {other:?}"),
    }
}

#[test]
fn clipboard_fix_pastes_only_when_asked() {
    let mut settings = groq_settings();
    settings.auto_paste = false;
    let profiles = default_profiles();
    let (mut flow, _) = RewriteFlow::fix_clipboard(settings.clone(), &profiles, false);
    flow.step(FixEvent::ClipboardRead(Ok("hola".to_string())));
    flow.step(FixEvent::BodySerialized("{}".to_string()));
    flow.step(FixEvent::Replied(Ok(GROQ_REPLY.as_bytes().to_vec())));
    let effects = flow.step(FixEvent::ClipboardWritten(Ok(())));
    assert_eq!(effects.len(), 2);
    assert!(!effects.iter().any(|e| matches!(e, FixEffect::Paste)));

    let (mut flow, _) = RewriteFlow::fix_clipboard(settings, &profiles, true);
    flow.step(FixEvent::ClipboardRead(Ok("hola".to_string())));
    flow.step(FixEvent::BodySerialized("{}".to_string()));
    flow.step(FixEvent::Replied(Ok(GROQ_REPLY.as_bytes().to_vec())));
    let effects = flow.step(FixEvent::ClipboardWritten(Ok(())));
    assert_eq!(effects.len(), 4);
    assert!(matches!(effects[1], FixEffect::Paste));
}

#[test]
fn clipboard_fix_stops_at_the_first_failure() {
    let profiles = default_profiles();

    let (_, effects) = RewriteFlow::fix_clipboard(groq_settings(), &[], false);
    assert_eq!(fail_of(&effects), Some("no prompt profiles available"));

    let (mut flow, _) = RewriteFlow::fix_clipboard(groq_settings(), &profiles, false);
    let effects = flow.step(FixEvent::ClipboardRead(Ok("  \n ".to_string())));
    assert_eq!(effects.len(), 2);
    assert_eq!(fail_of(&effects), Some("Clipboard is empty"));
    let finished = FixEvent::BodySerialized(String::new());
    assert!(!flow.accepts(&finished));

    let (mut flow, _) = RewriteFlow::fix_clipboard(groq_settings(), &profiles, false);
    let effects = flow.step(FixEvent::ClipboardRead(Err("Clipboard has no text".to_string())));
    assert_eq!(effects.len(), 1);
    assert_eq!(fail_of(&effects), Some("Clipboard has no text"));

    let (mut flow, _) = RewriteFlow::fix_clipboard(default_settings(), &profiles, false);
    let effects = flow.step(FixEvent::ClipboardRead(Ok("hola".to_string())));
    assert_eq!(effects.len(), 2);
    assert_eq!(fail_of(&effects), Some("Groq API key is missing"));

    let mut bad_model = groq_settings();
    bad_model.selected_model = "custom".to_string();
    bad_model.custom_model = "  ".to_string();
    let (mut flow, _) = RewriteFlow::fix_clipboard(bad_model, &profiles, false);
    let effects = flow.step(FixEvent::ClipboardRead(Ok("hola".to_string())));
    assert_eq!(effects.len(), 3);
    assert_eq!(status_of(&effects[1]), Some(("api-key", "groq API key loaded")));
    assert_eq!(fail_of(&effects), Some("groq model id is invalid"));

    let (mut flow, _) = RewriteFlow::fix_clipboard(groq_settings(), &profiles, false);
    flow.step(FixEvent::ClipboardRead(Ok("hola".to_string())));
    flow.step(FixEvent::BodySerialized("{}".to_string()));
    let effects = flow.step(FixEvent::Replied(Err("Groq request failed".to_string())));
    assert_eq!(fail_of(&effects), Some("Groq request failed"));

    let (mut flow, _) = RewriteFlow::fix_clipboard(groq_settings(), &profiles, false);
    flow.step(FixEvent::ClipboardRead(Ok("hola".to_string())));
    flow.step(FixEvent::BodySerialized("{}".to_string()));
    let effects = flow.step(FixEvent::Replied(Ok(vec![0x7B, 0xFF])));
    assert_eq!(effects.len(), 1);
    assert_eq!(fail_of(&effects), Some("invalid utf-8 sequence of 1 bytes from index 1"));

    let (mut flow, _) = RewriteFlow::fix_clipboard(groq_settings(), &profiles, false);
    flow.step(FixEvent::ClipboardRead(Ok("hola".to_string())));
    flow.step(FixEvent::BodySerialized("{}".to_string()));
    let reply = r#"{"error":{"message":"rate limited"}}"#;
    let effects = flow.step(FixEvent::Replied(Ok(reply.as_bytes().to_vec())));
    assert_eq!(effects.len(), 2);
    assert_eq!(status_of(&effects[0]), Some(("received", "Received Groq response")));
    assert_eq!(fail_of(&effects), Some("rate limited"));

    let (mut flow, _) = RewriteFlow::fix_clipboard(groq_settings(), &profiles, false);
    flow.step(FixEvent::ClipboardRead(Ok("hola".to_string())));
    flow.step(FixEvent::BodySerialized("{}".to_string()));
    flow.step(FixEvent::Replied(Ok(GROQ_REPLY.as_bytes().to_vec())));
    let effects = flow.step(FixEvent::ClipboardWritten(Err("Could not open clipboard".to_string())));
    assert_eq!(effects.len(), 1);
    assert_eq!(fail_of(&effects), Some("Could not open clipboard"));
}

#[test]
fn clipboard_fix_uses_the_selected_profile() {
    let mut settings = groq_settings();
    settings.selected_profile = "formal".to_string();
    let profiles = vec![
        PromptProfile { id: "fix".to_string(), title: "Fix".to_string(), instructions: "Fix it.".to_string() },
        PromptProfile { id: "formal".to_string(), title: "Formal".to_string(), instructions: "Make it formal.".to_string() },
    ];
    let (mut flow, _) = RewriteFlow::fix_clipboard(settings, &profiles, false);
    let effects = flow.step(FixEvent::ClipboardRead(Ok("hola".to_string())));
    match &effects[2] {
        FixEffect::SerializeBody(body) => {
            let messages = body.get("messages").and_then(|m| m.as_array()).unwrap();
            let system = messages[0].get("content").and_then(|c| c.as_str()).cloned();
            assert_eq!(system, Some("Make it formal.".to_string()));
        }
        other => panic!("unexpected effect {other:?}"),
    }
}

#[test]
fn transform_ends_without_touching_the_clipboard() {
    let mut settings = groq_settings();
    settings.selected_provider = "gemini".to_string();
    settings.selected_model = "gemini-2.5-flash".to_string();
    settings.api_key = "AIza".to_string();
    let (mut flow, effects) =
        RewriteFlow::transform(settings, "Fix it.".to_string(), "Fix".to_string(), "helo".to_string());
    assert_eq!(effects.len(), 3);
    assert_eq!(status_of(&effects[0]), Some(("prepared", "Prepared draft text")));
    assert_eq!(status_of(&effects[1]), Some(("api-key", "gemini API key loaded")));
    assert!(matches!(effects[2], FixEffect::SerializeBody(_)));
    let effects = flow.step(FixEvent::BodySerialized("{}".to_string()));
    match &effects[1] {
        FixEffect::Post(r) => {
            assert_eq!(r.host, "generativelanguage.googleapis.com");
            assert_eq!(r.path, "/v1beta/models/gemini-2.5-flash:generateContent?key=AIza");
        }
        other => panic!("unexpected effect {other:?}"),
    }
    let reply = r#"{"candidates":[{"content":{"parts":[{"text":"Hello"}]}}]}"#;
    let effects = flow.step(FixEvent::Replied(Ok(reply.as_bytes().to_vec())));
    assert_eq!(effects.len(), 2);
    assert_eq!(status_of(&effects[0]), Some(("received", "Received Gemini response")));
    match &effects[1] {
        FixEffect::Done(r) => {
            assert_eq!(r.output, "Hello");
            assert_eq!(r.provider, "gemini");
            assert_eq!(r.model, "gemini-2.5-flash");
        }
        other => panic!("unexpected effect {other:?}"),
    }
}

#[test]
fn reply_bytes_decode_as_utf8() {
    assert_eq!(decode_reply("héllo 😀".as_bytes().to_vec()), Ok("héllo 😀".to_string()));
    assert_eq!(decode_reply(vec![]), Ok(String::new()));
    assert_eq!(
        decode_reply(vec![0x61, 0xC3]),
        Err("incomplete utf-8 byte sequence from index 1".to_string())
    );
    assert_eq!(
        decode_reply(vec![0xED, 0xA0, 0x80]),
        Err("invalid utf-8 sequence of 1 bytes from index 0".to_string())
    );
}

#[test]
fn error_log_is_adjoined_to_the_directory() {
    assert_eq!(project_error_log_path_from("", true, true), Some("error.log".to_string()));
    let p = project_error_log_path_from("/work/", true, true).unwrap();
    assert_eq!(p, "/work/error.log");
    let q = project_error_log_path_from("/work/app", true, true).unwrap();
    assert_eq!(q.len(), "/work/app".len() + 1 + "error.log".len());
    assert!(q.starts_with("/work/app"));
    assert!(q.ends_with("error.log"));
}

#[test]
fn api_key_check_follows_the_selected_provider() {
    assert_eq!(check_api_key(&groq_settings()), Ok(()));
    assert_eq!(check_api_key(&default_settings()), Err("Groq API key is missing".to_string()));
    let mut gemini = groq_settings();
    gemini.selected_provider = "gemini".to_string();
    assert_eq!(check_api_key(&gemini), Err("Gemini API key is missing".to_string()));
    gemini.api_key = "AIza".to_string();
    assert_eq!(check_api_key(&gemini), Ok(()));
}
