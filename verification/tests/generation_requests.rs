use fixtext::defaults::default_settings;
use fixtext::generation::{
    extract_gemini_text, extract_generated_text, extract_groq_text, gemini_request_body,
    gemini_text_from_json, generation_request, groq_reasoning_effort, groq_request_body,
    groq_text_from_json, plan_generation, post_gemini, post_groq, request_body,
};
use fixtext::json::{parse_json, JsonNumber, JsonValue};

fn s(v: &str) -> JsonValue {
    JsonValue::Str(v.to_string())
}

fn obj(members: Vec<(&str, JsonValue)>) -> JsonValue {
    JsonValue::Object(members.into_iter().map(|(k, v)| (k.to_string(), v)).collect())
}

#[test]
fn reasoning_effort_by_model() {
    assert_eq!(groq_reasoning_effort("openai/gpt-oss-120b"), Some("low"));
    assert_eq!(groq_reasoning_effort("qwen/qwen3-32b"), Some("none"));
    assert_eq!(groq_reasoning_effort("llama-3.3-70b-versatile"), None);
    assert_eq!(groq_reasoning_effort("openai/gpt-4"), None);
}

#[test]
fn groq_body_plain_model() {
    let body = groq_request_body("llama-3.3-70b-versatile", "Fix it", "helo", 0.2f32.to_bits(), 512);
    let expected = obj(vec![
        ("model", s("llama-3.3-70b-versatile")),
        ("messages", JsonValue::Array(vec![
            obj(vec![("role", s("system")), ("content", s("Fix it"))]),
            obj(vec![("role", s("user")), ("content", s("helo"))]),
        ])),
        ("temperature", JsonValue::Number(JsonNumber::Float32Bits(0.2f32.to_bits()))),
        ("max_completion_tokens", JsonValue::Number(JsonNumber::Unsigned(512))),
        ("stream", JsonValue::Bool(false)),
    ]);
    assert_eq!(body, expected);
}

#[test]
fn groq_body_reasoning_model() {
    let body = groq_request_body("qwen/qwen3-32b", "i", "t", 0, 1);
    match body {
        JsonValue::Object(m) => {
            assert_eq!(m.len(), 7);
            assert_eq!(m[5], ("include_reasoning".to_string(), JsonValue::Bool(false)));
            assert_eq!(m[6], ("reasoning_effort".to_string(), s("none")));
        }
        other => panic!("not an object: {:?}", other),
    }
}

#[test]
fn gemini_body_with_thinking_settings() {
    let body = gemini_request_body("gemini-3-flash-preview", "Fix", "texto", 7, 256, "minimal");
    let config = obj(vec![
        ("responseMimeType", s("text/plain")),
        ("maxOutputTokens", JsonValue::Number(JsonNumber::Unsigned(256))),
        ("temperature", JsonValue::Number(JsonNumber::Float32Bits(7))),
        ("thinkingConfig", obj(vec![("thinkingLevel", s("minimal"))])),
    ]);
    let expected = obj(vec![
        ("contents", JsonValue::Array(vec![obj(vec![
            ("role", s("user")),
            ("parts", JsonValue::Array(vec![obj(vec![("text", s("texto"))])])),
        ])])),
        ("systemInstruction", obj(vec![("parts", JsonValue::Array(vec![obj(vec![("text", s("Fix"))])]))])),
        ("generationConfig", config),
    ]);
    assert_eq!(body, expected);
    let flash = gemini_request_body("gemini-2.5-flash-lite", "a", "b", 7, 256, "minimal");
    match flash {
        JsonValue::Object(m) => match &m[2].1 {
            JsonValue::Object(c) => {
                assert_eq!(c.len(), 4);
                assert_eq!(c[3].1, obj(vec![("thinkingBudget", JsonValue::Number(JsonNumber::Unsigned(0)))]));
            }
            other => panic!("{:?}", other),
        },
        other => panic!("{:?}", other),
    }
    match gemini_request_body("gemma-3", "a", "b", 7, 256, "minimal") {
        JsonValue::Object(m) => match &m[2].1 {
            JsonValue::Object(c) => assert_eq!(c.len(), 3),
            other => panic!("{:?}", other),
        },
        other => panic!("{:?}", other),
    }
}

#[test]
fn requests_to_each_service() {
    let g = post_gemini("KEY", "gemini-2.5-flash", "{}".to_string());
    assert_eq!(g.host, "generativelanguage.googleapis.com");
    assert_eq!(g.path, "/v1beta/models/gemini-2.5-flash:generateContent?key=KEY");
    assert_eq!(g.headers, "Content-Type: application/json\r\nAccept: application/json\r\n");
    assert_eq!(g.body, "{}");
    assert_eq!(g.service, "Gemini");
    let q = post_groq("  gsk_abc \n", "[]".to_string());
    assert_eq!(q.host, "api.groq.com");
    assert_eq!(q.path, "/openai/v1/chat/completions");
    assert_eq!(q.headers, "Content-Type: application/json\r\nAccept: application/json\r\nAuthorization: Bearer gsk_abc\r\n");
    assert_eq!(q.body, "[]");
    assert_eq!(q.service, "Groq");
}

#[test]
fn planning_checks_keys_and_model() {
    let mut s = default_settings();
    assert_eq!(plan_generation(&s).unwrap_err(), "Groq API key is missing");
    s.groq_api_key = "gsk".to_string();
    let plan = plan_generation(&s).unwrap();
    assert_eq!(plan.provider, "groq");
    assert_eq!(plan.model, "llama-3.3-70b-versatile");
    let body = request_body(&s, &plan, "i", "t");
    assert_eq!(body, groq_request_body("llama-3.3-70b-versatile", "i", "t", s.temperature_bits, s.max_output_tokens));
    let req = generation_request(&s, &plan, "b".to_string());
    assert_eq!(req.service, "Groq");
    s.selected_provider = "gemini".to_string();
    assert_eq!(plan_generation(&s).unwrap_err(), "Gemini API key is missing");
    s.api_key = "AIza".to_string();
    s.selected_model = "gemini/flash".to_string();
    assert_eq!(plan_generation(&s).unwrap_err(), "Gemini model id must not include a provider prefix or slash");
    s.selected_model = "gemini-2.5-flash".to_string();
    let plan = plan_generation(&s).unwrap();
    assert_eq!(plan.provider, "gemini");
    let req = generation_request(&s, &plan, "b".to_string());
    assert_eq!(req.path, "/v1beta/models/gemini-2.5-flash:generateContent?key=AIza");
    assert_eq!(request_body(&s, &plan, "i", "t"), gemini_request_body("gemini-2.5-flash", "i", "t", s.temperature_bits, s.max_output_tokens, "minimal"));
}

#[test]
fn parse_json_reads_documents() {
    let v = parse_json(r#"{"b": [1, "x", null, true], "a": {"k": 2.5}}"#).unwrap();
    let expected = obj(vec![
        ("a", obj(vec![("k", JsonValue::Number(JsonNumber::Text("2.5".to_string())))])),
        ("b", JsonValue::Array(vec![
            JsonValue::Number(JsonNumber::Text("1".to_string())),
            s("x"),
            JsonValue::Null,
            JsonValue::Bool(true),
        ])),
    ]);
    assert_eq!(v, expected);
    assert_eq!(v.get("a").unwrap().get("k"), Some(&JsonValue::Number(JsonNumber::Text("2.5".to_string()))));
    assert_eq!(v.get("zz"), None);
    assert_eq!(s("q").get("a"), None);
    let err = parse_json("nope").unwrap_err();
    assert_eq!(err, serde_json::from_str::<serde_json::Value>("nope").unwrap_err().to_string());
}

#[test]
fn groq_replies() {
    assert_eq!(extract_groq_text(r#"{"choices":[{"message":{"content":"Fixed text"}}]}"#), Ok("Fixed text".to_string()));
    assert_eq!(extract_groq_text(r#"{"choices":[{"message":{"content":" keep \n"}},{"message":{"content":"no"}}]}"#), Ok(" keep \n".to_string()));
    assert_eq!(extract_groq_text(r#"{"error":{"message":"Invalid API Key"},"choices":[]}"#), Err("Invalid API Key".to_string()));
    assert_eq!(extract_groq_text(r#"{"error":{"message":7}}"#), Err("Groq returned no text".to_string()));
    assert_eq!(extract_groq_text(r#"{"choices":[]}"#), Err("Groq returned no text".to_string()));
    assert_eq!(extract_groq_text(r#"{"choices":[{"message":{"content":null}}]}"#), Err("Groq returned no text".to_string()));
    assert_eq!(extract_groq_text(r#"{"choices":[{"message":{"content":"  "}}]}"#), Err("Groq returned empty text".to_string()));
    let bad = "{";
    assert_eq!(extract_groq_text(bad), Err(serde_json::from_str::<serde_json::Value>(bad).unwrap_err().to_string()));
}

#[test]
fn gemini_replies() {
    let reply = r#"{"candidates":[{"content":{"parts":[{"text":"Hola"},{"thought":true},{"text":" mundo"}]}},{"content":{"parts":[{"text":"x"}]}}]}"#;
    assert_eq!(extract_gemini_text(reply), Ok("Hola mundo".to_string()));
    assert_eq!(extract_gemini_text(r#"{"error":{"code":400,"message":"API key not valid"}}"#), Err("API key not valid".to_string()));
    assert_eq!(extract_gemini_text(r#"{"candidates":[]}"#), Err("Gemini returned no text".to_string()));
    assert_eq!(extract_gemini_text(r#"{"candidates":[{"content":{"parts":[{"text":" "}]}}]}"#), Err("Gemini returned no text".to_string()));
    assert_eq!(extract_gemini_text("[1,2]"), Err("Gemini returned no text".to_string()));
    let v = parse_json(reply).unwrap();
    assert_eq!(gemini_text_from_json(&v), Ok("Hola mundo".to_string()));
    assert_eq!(groq_text_from_json(&v), Err("Groq returned no text".to_string()));
}

#[test]
fn replies_read_by_the_planned_provider() {
    let mut s = default_settings();
    s.groq_api_key = "k".to_string();
    let plan = plan_generation(&s).unwrap();
    let groq_reply = r#"{"choices":[{"message":{"content":"ok"}}]}"#;
    assert_eq!(extract_generated_text(&plan, groq_reply), Ok("ok".to_string()));
    s.selected_provider = "gemini".to_string();
    s.selected_model = "gemini-2.5-flash".to_string();
    s.api_key = "k".to_string();
    let plan = plan_generation(&s).unwrap();
    assert_eq!(extract_generated_text(&plan, groq_reply), Err("Gemini returned no text".to_string()));
}
