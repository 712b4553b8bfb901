//! Rewriting text with a language model: the checks made before a request,
//! the request sent to Groq or Gemini, and the text read from the reply.
use vstd::prelude::*;
use crate::json::{
    Json, JsonNum, JsonNumber, JsonValue, fields_view, items_view, json_as_array, json_as_str,
    json_get, lemma_fields_view, lemma_first_field_absent, lemma_first_field_at, lemma_items_view, opt_as_array, opt_as_str, opt_first, opt_get,
    parse_json, parsed_json,
};
use crate::settings::{
    Settings, model_id_error, selected_model_id, selected_model_spec, selected_provider_id,
    selected_provider_spec, validate_model_id_for_provider,
};
use vstd::utf8::{decode_utf8, valid_utf8};
use crate::text::{err_of, is_blank, is_blank_spec, starts_with, starts_with_spec, str_eq, text_result, trim, trimmed};

verus! {

/// An HTTPS `POST` to make: host, path, extra header lines, body, and the
/// service name used in error messages.
#[derive(Clone, Debug)]
pub struct HttpRequest {
    pub host: String,
    pub path: String,
    pub headers: String,
    pub body: String,
    pub service: String,
}

/// The parts of an HTTPS request, as text.
pub struct RequestView {
    pub host: Seq<char>,
    pub path: Seq<char>,
    pub headers: Seq<char>,
    pub body: Seq<char>,
    pub service: Seq<char>,
}

impl View for HttpRequest {
    type V = RequestView;

    open spec fn view(&self) -> RequestView {
        RequestView {
            host: self.host@,
            path: self.path@,
            headers: self.headers@,
            body: self.body@,
            service: self.service@,
        }
    }
}

/// The provider and model a rewrite goes to.
#[derive(Clone, Debug)]
pub struct GenerationPlan {
    pub provider: String,
    pub model: String,
}

/// The `reasoning_effort` Groq is asked for: `low` for the GPT-OSS models,
/// `none` for Qwen3, and nothing for other models.
pub open spec fn reasoning_effort_spec(model: Seq<char>) -> Option<Seq<char>> {
    if starts_with_spec(model, "openai/gpt-oss-"@) {
        Some("low"@)
    } else if starts_with_spec(model, "qwen/qwen3-"@) {
        Some("none"@)
    } else {
        None
    }
}

pub open spec fn message_json(role: Seq<char>, content: Seq<char>) -> Json {
    Json::Object(seq![("role"@, Json::Str(role)), ("content"@, Json::Str(content))])
}

/// The body of a Groq chat completion request.
pub open spec fn groq_body_spec(
    model: Seq<char>,
    instructions: Seq<char>,
    input: Seq<char>,
    temperature_bits: u32,
    max_tokens: u32,
) -> Json {
    let base = seq![
        ("model"@, Json::Str(model)),
        ("messages"@, Json::Array(seq![message_json("system"@, instructions), message_json("user"@, input)])),
        ("temperature"@, Json::Number(JsonNum::Float32Bits(temperature_bits))),
        ("max_completion_tokens"@, Json::Number(JsonNum::Unsigned(max_tokens as u64))),
        ("stream"@, Json::Bool(false)),
    ];
    match reasoning_effort_spec(model) {
        Some(e) => Json::Object(base + seq![("include_reasoning"@, Json::Bool(false)), ("reasoning_effort"@, Json::Str(e))]),
        None => Json::Object(base),
    }
}

/// The thinking configuration Gemini is given: the configured level for
/// Gemini 3 models, no thinking budget for Gemini 2.5 Flash models.
pub open spec fn thinking_config_spec(model: Seq<char>, level: Seq<char>) -> Option<Json> {
    if starts_with_spec(model, "gemini-3"@) {
        Some(Json::Object(seq![("thinkingLevel"@, Json::Str(level))]))
    } else if starts_with_spec(model, "gemini-2.5-flash"@) {
        Some(Json::Object(seq![("thinkingBudget"@, Json::Number(JsonNum::Unsigned(0)))]))
    } else {
        None
    }
}

pub open spec fn text_part(text: Seq<char>) -> Json {
    Json::Object(seq![("text"@, Json::Str(text))])
}

/// The `generationConfig` of a Gemini request.
pub open spec fn generation_config_spec(
    model: Seq<char>,
    temperature_bits: u32,
    max_tokens: u32,
    thinking_level: Seq<char>,
) -> Json {
    let base = seq![
        ("responseMimeType"@, Json::Str("text/plain"@)),
        ("maxOutputTokens"@, Json::Number(JsonNum::Unsigned(max_tokens as u64))),
        ("temperature"@, Json::Number(JsonNum::Float32Bits(temperature_bits))),
    ];
    match thinking_config_spec(model, thinking_level) {
        Some(t) => Json::Object(base + seq![("thinkingConfig"@, t)]),
        None => Json::Object(base),
    }
}

/// The body of a Gemini `generateContent` request.
pub open spec fn gemini_body_spec(
    model: Seq<char>,
    instructions: Seq<char>,
    input: Seq<char>,
    temperature_bits: u32,
    max_tokens: u32,
    thinking_level: Seq<char>,
) -> Json {
    let config = generation_config_spec(model, temperature_bits, max_tokens, thinking_level);
    Json::Object(
        seq![
            ("contents"@, Json::Array(seq![Json::Object(seq![("role"@, Json::Str("user"@)), ("parts"@, Json::Array(seq![text_part(input)]))])])),
            ("systemInstruction"@, Json::Object(seq![("parts"@, Json::Array(seq![text_part(instructions)]))])),
            ("generationConfig"@, config),
        ],
    )
}

/// Why the selected provider's API key cannot be used: it is blank.
pub open spec fn key_error(s: Settings) -> Option<Seq<char>> {
    let provider = selected_provider_spec(s);
    if provider == "groq"@ && is_blank_spec(s.groq_api_key@) {
        Some("Groq API key is missing"@)
    } else if provider != "groq"@ && is_blank_spec(s.api_key@) {
        Some("Gemini API key is missing"@)
    } else {
        None
    }
}

/// Why a rewrite with these settings cannot be sent: the selected
/// provider's API key is blank, or the selected model is not a valid id.
pub open spec fn generation_error(s: Settings) -> Option<Seq<char>> {
    match key_error(s) {
        Some(e) => Some(e),
        None => model_id_error(selected_provider_spec(s), selected_model_spec(s)),
    }
}

pub open spec fn is_gemini_request(r: HttpRequest, api_key: Seq<char>, model: Seq<char>, body: String) -> bool {
    &&& r.host@ == "generativelanguage.googleapis.com"@
    &&& r.path@ == "/v1beta/models/"@ + model + ":generateContent?key="@ + api_key
    &&& r.headers@ == "Content-Type: application/json\r\nAccept: application/json\r\n"@
    &&& r.body == body
    &&& r.service@ == "Gemini"@
}

pub open spec fn is_groq_request(r: HttpRequest, api_key: Seq<char>, body: String) -> bool {
    &&& r.host@ == "api.groq.com"@
    &&& r.path@ == "/openai/v1/chat/completions"@
    &&& r.headers@ == "Content-Type: application/json\r\nAccept: application/json\r\nAuthorization: Bearer "@ + trimmed(api_key) + "\r\n"@
    &&& r.body == body
    &&& r.service@ == "Groq"@
}

/// The `message` of an `error` object in a reply.
pub open spec fn error_message(v: Json) -> Option<Seq<char>> {
    opt_as_str(opt_get(json_get(v, "error"@), "message"@))
}

/// `candidates[0].content.parts` of a Gemini reply.
pub open spec fn gemini_parts(v: Json) -> Option<Seq<Json>> {
    opt_as_array(opt_get(opt_get(opt_first(opt_as_array(json_get(v, "candidates"@))), "content"@), "parts"@))
}

/// The `text` of each part that has one, concatenated.
pub open spec fn part_texts(parts: Seq<Json>) -> Seq<char>
    decreases parts.len(),
{
    if parts.len() == 0 {
        Seq::empty()
    } else {
        part_texts(parts.drop_last()) + match opt_as_str(json_get(parts.last(), "text"@)) {
            Some(t) => t,
            None => Seq::empty(),
        }
    }
}

/// The text of a Gemini reply, or why there is none.
pub open spec fn gemini_text_spec(v: Json) -> Result<Seq<char>, Seq<char>> {
    match error_message(v) {
        Some(m) => Err(m),
        None => {
            let out = match gemini_parts(v) {
                Some(parts) => part_texts(parts),
                None => Seq::empty(),
            };
            if is_blank_spec(out) {
                Err("Gemini returned no text"@)
            } else {
                Ok(out)
            }
        },
    }
}

/// `choices[0].message.content` of a Groq reply.
pub open spec fn groq_content(v: Json) -> Option<Seq<char>> {
    opt_as_str(opt_get(opt_get(opt_first(opt_as_array(json_get(v, "choices"@))), "message"@), "content"@))
}

/// The text of a Groq reply, or why there is none.
pub open spec fn groq_text_spec(v: Json) -> Result<Seq<char>, Seq<char>> {
    match error_message(v) {
        Some(m) => Err(m),
        None => match groq_content(v) {
            None => Err("Groq returned no text"@),
            Some(t) => if is_blank_spec(t) {
                Err("Groq returned empty text"@)
            } else {
                Ok(t)
            },
        },
    }
}

/// What a reply text yields once parsed, for one of the two readers.
pub open spec fn reply_text_spec(reply: Seq<char>, groq: bool) -> Result<Seq<char>, Seq<char>> {
    match parsed_json(reply) {
        Ok(v) => if groq {
            groq_text_spec(v)
        } else {
            gemini_text_spec(v)
        },
        Err(e) => Err(e),
    }
}

/// The `reasoning_effort` to ask Groq for with this model, if any.
pub fn groq_reasoning_effort(model: &str) -> (r: Option<&'static str>)
    ensures
        match r {
            Some(e) => reasoning_effort_spec(model@) == Some(e@),
            None => reasoning_effort_spec(model@) is None,
        },
{
    if starts_with(model, "openai/gpt-oss-") {
        Some("low")
    } else if starts_with(model, "qwen/qwen3-") {
        Some("none")
    } else {
        None
    }
}

fn member(key: &str, value: JsonValue) -> (m: (String, JsonValue))
    ensures
        m.0@ == key@,
        m.1 == value,
{
    (key.to_owned(), value)
}

fn number_u32(n: u32) -> (j: JsonValue)
    ensures
        j@ == Json::Number(JsonNum::Unsigned(n as u64)),
{
    JsonValue::Number(JsonNumber::Unsigned(n as u64))
}

fn number_f32_bits(bits: u32) -> (j: JsonValue)
    ensures
        j@ == Json::Number(JsonNum::Float32Bits(bits)),
{
    JsonValue::Number(JsonNumber::Float32Bits(bits))
}

fn message(role: &str, content: &str) -> (j: JsonValue)
    ensures
        j@ == message_json(role@, content@),
{
    let fields = vec![member("role", JsonValue::string(role)), member("content", JsonValue::string(content))];
    proof {
        lemma_fields_view(fields@);
    }
    assert(fields_view(fields@) =~= seq![("role"@, Json::Str(role@)), ("content"@, Json::Str(content@))]);
    JsonValue::object(fields)
}

fn part(text: &str) -> (j: JsonValue)
    ensures
        j@ == text_part(text@),
{
    let fields = vec![member("text", JsonValue::string(text))];
    proof {
        lemma_fields_view(fields@);
    }
    assert(fields_view(fields@) =~= seq![("text"@, Json::Str(text@))]);
    JsonValue::object(fields)
}

fn single(item: JsonValue) -> (j: JsonValue)
    ensures
        j@ == Json::Array(seq![item@]),
{
    let items = vec![item];
    proof {
        lemma_items_view(items@);
    }
    assert(items_view(items@) =~= seq![items@[0]@]);
    JsonValue::array(items)
}

/// The body of a Groq chat completion request: the instructions as the
/// system message, the text as the user message, no streaming, and for
/// reasoning models the effort asked for with the reasoning left out.
pub fn groq_request_body(
    model: &str,
    instructions: &str,
    input: &str,
    temperature_bits: u32,
    max_tokens: u32,
) -> (body: JsonValue)
    ensures
        body@ == groq_body_spec(model@, instructions@, input@, temperature_bits, max_tokens),
{
    let messages = vec![message("system", instructions), message("user", input)];
    proof {
        lemma_items_view(messages@);
    }
    assert(items_view(messages@) =~= seq![message_json("system"@, instructions@), message_json("user"@, input@)]);
    let mut fields = vec![
        member("model", JsonValue::string(model)),
        member("messages", JsonValue::array(messages)),
        member("temperature", number_f32_bits(temperature_bits)),
        member("max_completion_tokens", number_u32(max_tokens)),
        member("stream", JsonValue::Bool(false)),
    ];
    let ghost base = seq![
        ("model"@, Json::Str(model@)),
        ("messages"@, Json::Array(seq![message_json("system"@, instructions@), message_json("user"@, input@)])),
        ("temperature"@, Json::Number(JsonNum::Float32Bits(temperature_bits))),
        ("max_completion_tokens"@, Json::Number(JsonNum::Unsigned(max_tokens as u64))),
        ("stream"@, Json::Bool(false)),
    ];
    proof {
        lemma_fields_view(fields@);
    }
    assert(fields_view(fields@) =~= base);
    match groq_reasoning_effort(model) {
        Some(effort) => {
            fields.push(member("include_reasoning", JsonValue::Bool(false)));
            fields.push(member("reasoning_effort", JsonValue::string(effort)));
            proof {
                lemma_fields_view(fields@);
            }
            assert(fields_view(fields@) =~= base + seq![("include_reasoning"@, Json::Bool(false)), ("reasoning_effort"@, Json::Str(effort@))]);
        },
        None => {},
    }
    JsonValue::object(fields)
}

/// The body of a Gemini `generateContent` request: the text as the user
/// content, the instructions as the system instruction, and a generation
/// configuration asking for plain text.
pub fn gemini_request_body(
    model: &str,
    instructions: &str,
    input: &str,
    temperature_bits: u32,
    max_tokens: u32,
    thinking_level: &str,
) -> (body: JsonValue)
    ensures
        body@ == gemini_body_spec(model@, instructions@, input@, temperature_bits, max_tokens, thinking_level@),
{
    let mut config = vec![
        member("responseMimeType", JsonValue::string("text/plain")),
        member("maxOutputTokens", number_u32(max_tokens)),
        member("temperature", number_f32_bits(temperature_bits)),
    ];
    let ghost base = seq![
        ("responseMimeType"@, Json::Str("text/plain"@)),
        ("maxOutputTokens"@, Json::Number(JsonNum::Unsigned(max_tokens as u64))),
        ("temperature"@, Json::Number(JsonNum::Float32Bits(temperature_bits))),
    ];
    proof {
        lemma_fields_view(config@);
    }
    assert(fields_view(config@) =~= base);
    if starts_with(model, "gemini-3") {
        let level = vec![member("thinkingLevel", JsonValue::string(thinking_level))];
        proof {
            lemma_fields_view(level@);
        }
        assert(fields_view(level@) =~= seq![("thinkingLevel"@, Json::Str(thinking_level@))]);
        config.push(member("thinkingConfig", JsonValue::object(level)));
        proof {
            lemma_fields_view(config@);
        }
        assert(fields_view(config@) =~= base + seq![("thinkingConfig"@, Json::Object(seq![("thinkingLevel"@, Json::Str(thinking_level@))]))]);
    } else if starts_with(model, "gemini-2.5-flash") {
        let budget = vec![member("thinkingBudget", number_u32(0))];
        proof {
            lemma_fields_view(budget@);
        }
        assert(fields_view(budget@) =~= seq![("thinkingBudget"@, Json::Number(JsonNum::Unsigned(0)))]);
        config.push(member("thinkingConfig", JsonValue::object(budget)));
        proof {
            lemma_fields_view(config@);
        }
        assert(fields_view(config@) =~= base + seq![("thinkingConfig"@, Json::Object(seq![("thinkingBudget"@, Json::Number(JsonNum::Unsigned(0)))]))]);
    }
    let config = JsonValue::object(config);
    assert(config@ == generation_config_spec(model@, temperature_bits, max_tokens, thinking_level@));
    let user = vec![member("role", JsonValue::string("user")), member("parts", single(part(input)))];
    proof {
        lemma_fields_view(user@);
    }
    assert(fields_view(user@) =~= seq![("role"@, Json::Str("user"@)), ("parts"@, Json::Array(seq![text_part(input@)]))]);
    let system = vec![member("parts", single(part(instructions)))];
    proof {
        lemma_fields_view(system@);
    }
    assert(fields_view(system@) =~= seq![("parts"@, Json::Array(seq![text_part(instructions@)]))]);
    let fields = vec![
        member("contents", single(JsonValue::object(user))),
        member("systemInstruction", JsonValue::object(system)),
        member("generationConfig", config),
    ];
    proof {
        lemma_fields_view(fields@);
    }
    assert(fields_view(fields@) =~= seq![
        ("contents"@, Json::Array(seq![Json::Object(seq![("role"@, Json::Str("user"@)), ("parts"@, Json::Array(seq![text_part(input@)]))])])),
        ("systemInstruction"@, Json::Object(seq![("parts"@, Json::Array(seq![text_part(instructions@)]))])),
        ("generationConfig"@, generation_config_spec(model@, temperature_bits, max_tokens, thinking_level@)),
    ]);
    JsonValue::object(fields)
}

/// The request for a Gemini model: the model and the API key go in the
/// path.
pub fn post_gemini(api_key: &str, model: &str, body: String) -> (r: HttpRequest)
    ensures
        is_gemini_request(r, api_key@, model@, body),
{
    let mut path = "/v1beta/models/".to_owned();
    path.append(model);
    path.append(":generateContent?key=");
    path.append(api_key);
    HttpRequest {
        host: "generativelanguage.googleapis.com".to_owned(),
        path,
        headers: "Content-Type: application/json\r\nAccept: application/json\r\n".to_owned(),
        body,
        service: "Gemini".to_owned(),
    }
}

/// The request for a Groq model: the trimmed API key goes in a bearer
/// authorization header.
pub fn post_groq(api_key: &str, body: String) -> (r: HttpRequest)
    ensures
        is_groq_request(r, api_key@, body),
{
    let mut headers = "Content-Type: application/json\r\nAccept: application/json\r\nAuthorization: Bearer ".to_owned();
    headers.append(trim(api_key));
    headers.append("\r\n");
    HttpRequest {
        host: "api.groq.com".to_owned(),
        path: "/openai/v1/chat/completions".to_owned(),
        headers,
        body,
        service: "Groq".to_owned(),
    }
}

/// Checks that the selected provider's API key is not blank.
pub fn check_api_key(settings: &Settings) -> (r: Result<(), String>)
    ensures
        err_of(r) == key_error(*settings),
{
    let provider = selected_provider_id(settings);
    if str_eq(provider.as_str(), "groq") {
        if is_blank(settings.groq_api_key.as_str()) {
            return Err("Groq API key is missing".to_owned());
        }
    } else if is_blank(settings.api_key.as_str()) {
        return Err("Gemini API key is missing".to_owned());
    }
    Ok(())
}

/// Checks that a rewrite can be sent with these settings, and names the
/// provider and model it goes to.
pub fn plan_generation(settings: &Settings) -> (r: Result<GenerationPlan, String>)
    ensures
        match r {
            Ok(p) => {
                &&& generation_error(*settings) is None
                &&& p.provider@ == selected_provider_spec(*settings)
                &&& p.model@ == selected_model_spec(*settings)
            },
            Err(e) => generation_error(*settings) == Some(e@),
        },
{
    match check_api_key(settings) {
        Ok(()) => {},
        Err(e) => {
            return Err(e);
        },
    }
    let provider = selected_provider_id(settings);
    let model = selected_model_id(settings);
    match validate_model_id_for_provider(provider.as_str(), model.as_str()) {
        Ok(()) => Ok(GenerationPlan { provider, model }),
        Err(e) => Err(e),
    }
}

/// The request body for the planned provider and model.
pub fn request_body(settings: &Settings, plan: &GenerationPlan, instructions: &str, input: &str) -> (body: JsonValue)
    ensures
        body@ == (if plan.provider@ == "groq"@ {
            groq_body_spec(plan.model@, instructions@, input@, settings.temperature_bits, settings.max_output_tokens)
        } else {
            gemini_body_spec(plan.model@, instructions@, input@, settings.temperature_bits, settings.max_output_tokens, settings.thinking_level@)
        }),
{
    if str_eq(plan.provider.as_str(), "groq") {
        groq_request_body(plan.model.as_str(), instructions, input, settings.temperature_bits, settings.max_output_tokens)
    } else {
        gemini_request_body(plan.model.as_str(), instructions, input, settings.temperature_bits, settings.max_output_tokens, settings.thinking_level.as_str())
    }
}

/// The HTTPS request carrying `body` to the planned provider, with the
/// settings' key for it.
pub fn generation_request(settings: &Settings, plan: &GenerationPlan, body: String) -> (r: HttpRequest)
    ensures
        if plan.provider@ == "groq"@ {
            is_groq_request(r, settings.groq_api_key@, body)
        } else {
            is_gemini_request(r, settings.api_key@, plan.model@, body)
        },
{
    if str_eq(plan.provider.as_str(), "groq") {
        post_groq(settings.groq_api_key.as_str(), body)
    } else {
        post_gemini(settings.api_key.as_str(), plan.model.as_str(), body)
    }
}

/// `value.get("error").and_then(|e| e.get("message")).and_then(Value::as_str)`.
fn reply_error_message(v: &JsonValue) -> (r: Option<&String>)
    ensures
        match r {
            Some(m) => error_message(v@) == Some(m@),
            None => error_message(v@) is None,
        },
{
    match v.get("error") {
        Some(e) => match e.get("message") {
            Some(m) => m.as_str(),
            None => None,
        },
        None => None,
    }
}

/// `Some(&items[0])` of an array member of `v`.
fn first_element<'a>(v: &'a JsonValue, key: &str) -> (r: Option<&'a JsonValue>)
    ensures
        match r {
            Some(x) => opt_first(opt_as_array(json_get(v@, key@))) == Some(x@),
            None => opt_first(opt_as_array(json_get(v@, key@))) is None,
        },
{
    match v.get(key) {
        Some(a) => match a.as_array() {
            Some(items) => JsonValue::first_of(items),
            None => None,
        },
        None => None,
    }
}

/// The text of a parsed Gemini reply: its error message, the concatenated
/// text of the first candidate's parts, or an error when that is blank.
pub fn gemini_text_from_json(value: &JsonValue) -> (r: Result<String, String>)
    ensures
        text_result(r) == gemini_text_spec(value@),
{
    match reply_error_message(value) {
        Some(m) => {
            return Err(m.clone());
        },
        None => {},
    }
    let mut out = String::new();
    let parts = match first_element(value, "candidates") {
        Some(c) => match c.get("content") {
            Some(content) => match content.get("parts") {
                Some(p) => p.as_array(),
                None => None,
            },
            None => None,
        },
        None => None,
    };
    assert(match parts {
        Some(p) => gemini_parts(value@) == Some(items_view(p@)),
        None => gemini_parts(value@) is None,
    });
    match parts {
        Some(p) => {
            proof {
                lemma_items_view(p@);
            }
            let ghost pv = items_view(p@);
            let mut i: usize = 0;
            while i < p.len()
                invariant
                    pv == items_view(p@),
                    pv.len() == p@.len(),
                    forall|j: int| 0 <= j < p@.len() ==> #[trigger] pv[j] == p@[j]@,
                    0 <= i <= p@.len(),
                    out@ == part_texts(pv.take(i as int)),
                decreases p@.len() - i,
            {
                let ghost before = pv.take(i as int);
                let ghost after = pv.take(i + 1);
                assert(after.drop_last() =~= before);
                assert(after.last() == p@[i as int]@);
                match p[i].get("text") {
                    Some(t) => match t.as_str() {
                        Some(s) => {
                            out.append(s.as_str());
                        },
                        None => {},
                    },
                    None => {},
                }
                i = i + 1;
            }
            assert(pv.take(p@.len() as int) =~= pv);
        },
        None => {},
    }
    if is_blank(out.as_str()) {
        Err("Gemini returned no text".to_owned())
    } else {
        Ok(out)
    }
}

/// The text of a parsed Groq reply: its error message, or the content of
/// the first choice's message, refused when missing or blank.
pub fn groq_text_from_json(value: &JsonValue) -> (r: Result<String, String>)
    ensures
        text_result(r) == groq_text_spec(value@),
{
    match reply_error_message(value) {
        Some(m) => {
            return Err(m.clone());
        },
        None => {},
    }
    let content = match first_element(value, "choices") {
        Some(c) => match c.get("message") {
            Some(msg) => match msg.get("content") {
                Some(t) => t.as_str(),
                None => None,
            },
            None => None,
        },
        None => None,
    };
    match content {
        None => Err("Groq returned no text".to_owned()),
        Some(t) => if is_blank(t.as_str()) {
            Err("Groq returned empty text".to_owned())
        } else {
            Ok(t.clone())
        },
    }
}

/// Parses a Gemini reply and reads its text.
pub fn extract_gemini_text(response: &str) -> (r: Result<String, String>)
    ensures
        text_result(r) == reply_text_spec(response@, false),
{
    match parse_json(response) {
        Ok(v) => gemini_text_from_json(&v),
        Err(e) => Err(e),
    }
}

/// Parses a Groq reply and reads its text.
pub fn extract_groq_text(response: &str) -> (r: Result<String, String>)
    ensures
        text_result(r) == reply_text_spec(response@, true),
{
    match parse_json(response) {
        Ok(v) => groq_text_from_json(&v),
        Err(e) => Err(e),
    }
}

/// Reads the reply of the planned provider.
pub fn extract_generated_text(plan: &GenerationPlan, response: &str) -> (r: Result<String, String>)
    ensures
        text_result(r) == reply_text_spec(response@, plan.provider@ == "groq"@),
{
    if str_eq(plan.provider.as_str(), "groq") {
        extract_groq_text(response)
    } else {
        extract_gemini_text(response)
    }
}

/// The text read from a reply is never blank.
pub proof fn lemma_reply_text_is_not_blank(reply: Seq<char>, groq: bool)
    ensures
        reply_text_spec(reply, groq) matches Ok(t) ==> !is_blank_spec(t),
{
}

/// What `String::from_utf8` reports, as text, for bytes that are not UTF-8.
pub uninterp spec fn utf8_error_text(bytes: Seq<u8>) -> Seq<char>;

/// `String::from_utf8`, with its error as its `Display` text. The claim,
/// from its documentation: the bytes become a string exactly when they are
/// valid UTF-8, and the string holds the characters they encode; the error
/// text is the name `utf8_error_text` of the bytes, which nothing else
/// shapes. What that text says is left unsaid.
#[verifier::external_body]
fn string_from_utf8(bytes: Vec<u8>) -> (r: Result<String, String>)
    ensures
        r is Ok <==> valid_utf8(bytes@),
        match r {
            Ok(s) => s@ == decode_utf8(bytes@),
            Err(e) => e@ == utf8_error_text(bytes@),
        },
{
    match String::from_utf8(bytes) {
        Ok(s) => Ok(s),
        Err(e) => Err(e.to_string()),
    }
}

/// The text of a reply body: its bytes read as UTF-8, or the reason they
/// are not.
pub fn decode_reply(bytes: Vec<u8>) -> (r: Result<String, String>)
    ensures
        r is Ok <==> valid_utf8(bytes@),
        match r {
            Ok(s) => s@ == decode_utf8(bytes@),
            Err(e) => e@ == utf8_error_text(bytes@),
        },
{
    string_from_utf8(bytes)
}

/// The element at `i` of an optional array.
pub open spec fn opt_at(v: Option<Seq<Json>>, i: int) -> Option<Json> {
    match v {
        Some(items) => if 0 <= i < items.len() {
            Some(items[i])
        } else {
            None
        },
        None => None,
    }
}

/// The text a request body asks to rewrite, read back out of it: the content
/// of the second message for Groq, the text of the first part of the first
/// content for Gemini.
pub open spec fn sent_text(b: Json, groq: bool) -> Option<Seq<char>> {
    if groq {
        opt_as_str(opt_get(opt_at(opt_as_array(json_get(b, "messages"@)), 1), "content"@))
    } else {
        opt_as_str(opt_get(opt_first(opt_as_array(opt_get(opt_first(opt_as_array(json_get(b, "contents"@))), "parts"@))), "text"@))
    }
}

/// The instructions a request body carries, read back out of it: the
/// content of the first message for Groq, the text of the first part of the
/// system instruction for Gemini.
pub open spec fn sent_instructions(b: Json, groq: bool) -> Option<Seq<char>> {
    if groq {
        opt_as_str(opt_get(opt_first(opt_as_array(json_get(b, "messages"@))), "content"@))
    } else {
        opt_as_str(opt_get(opt_first(opt_as_array(opt_get(json_get(b, "systemInstruction"@), "parts"@))), "text"@))
    }
}

/// A Groq request body names the model, sends the instructions as the
/// system message and the text as the user message, does not stream, and
/// asks reasoning models for their effort: `low` for every GPT-OSS model,
/// `none` for every Qwen3 model, and no effort (and no reasoning switch) for
/// any other model.
pub proof fn lemma_groq_body_members(
    model: Seq<char>,
    instructions: Seq<char>,
    input: Seq<char>,
    temperature_bits: u32,
    max_tokens: u32,
)
    ensures
        ({
            let b = groq_body_spec(model, instructions, input, temperature_bits, max_tokens);
            let messages = opt_as_array(json_get(b, "messages"@));
            &&& json_get(b, "model"@) == Some(Json::Str(model))
            &&& messages matches Some(ms) && ms.len() == 2
            &&& opt_get(opt_at(messages, 0), "role"@) == Some(Json::Str("system"@))
            &&& opt_get(opt_at(messages, 1), "role"@) == Some(Json::Str("user"@))
            &&& sent_instructions(b, true) == Some(instructions)
            &&& sent_text(b, true) == Some(input)
            &&& json_get(b, "temperature"@) == Some(Json::Number(JsonNum::Float32Bits(temperature_bits)))
            &&& json_get(b, "max_completion_tokens"@) == Some(Json::Number(JsonNum::Unsigned(max_tokens as u64)))
            &&& json_get(b, "stream"@) == Some(Json::Bool(false))
            &&& reasoning_effort_spec(model) matches Some(e) ==> json_get(b, "reasoning_effort"@) == Some(Json::Str(e))
            &&& starts_with_spec(model, "openai/gpt-oss-"@) ==> {
                &&& json_get(b, "reasoning_effort"@) == Some(Json::Str("low"@))
                &&& json_get(b, "include_reasoning"@) == Some(Json::Bool(false))
            }
            &&& starts_with_spec(model, "qwen/qwen3-"@) ==> {
                &&& json_get(b, "reasoning_effort"@) == Some(Json::Str("none"@))
                &&& json_get(b, "include_reasoning"@) == Some(Json::Bool(false))
            }
            &&& !starts_with_spec(model, "openai/gpt-oss-"@) && !starts_with_spec(model, "qwen/qwen3-"@) ==> {
                &&& json_get(b, "reasoning_effort"@) is None
                &&& json_get(b, "include_reasoning"@) is None
            }
        }),
{
    reveal_strlit("model");
    reveal_strlit("messages");
    reveal_strlit("temperature");
    reveal_strlit("max_completion_tokens");
    reveal_strlit("stream");
    reveal_strlit("include_reasoning");
    reveal_strlit("reasoning_effort");
    reveal_strlit("role");
    reveal_strlit("content");
    reveal_strlit("openai/gpt-oss-");
    reveal_strlit("qwen/qwen3-");
    let system = message_json("system"@, instructions);
    let user = message_json("user"@, input);
    let base = seq![
        ("model"@, Json::Str(model)),
        ("messages"@, Json::Array(seq![system, user])),
        ("temperature"@, Json::Number(JsonNum::Float32Bits(temperature_bits))),
        ("max_completion_tokens"@, Json::Number(JsonNum::Unsigned(max_tokens as u64))),
        ("stream"@, Json::Bool(false)),
    ];
    let fields = match reasoning_effort_spec(model) {
        Some(e) => base + seq![("include_reasoning"@, Json::Bool(false)), ("reasoning_effort"@, Json::Str(e))],
        None => base,
    };
    assert(groq_body_spec(model, instructions, input, temperature_bits, max_tokens) == Json::Object(fields));
    assert(forall|k: int| 0 <= k < 5 ==> fields[k] == base[k]);
    assert(fields[0].0.len() == 5 && fields[1].0.len() == 8 && fields[2].0.len() == 11);
    assert(fields[3].0.len() == 21 && fields[4].0.len() == 6);
    lemma_first_field_at(fields, "model"@, 0);
    lemma_first_field_at(fields, "messages"@, 1);
    lemma_first_field_at(fields, "temperature"@, 2);
    lemma_first_field_at(fields, "max_completion_tokens"@, 3);
    lemma_first_field_at(fields, "stream"@, 4);
    let sf = seq![("role"@, Json::Str("system"@)), ("content"@, Json::Str(instructions))];
    let uf = seq![("role"@, Json::Str("user"@)), ("content"@, Json::Str(input))];
    assert(sf[0].0.len() == 4 && uf[0].0.len() == 4);
    lemma_first_field_at(sf, "role"@, 0);
    lemma_first_field_at(sf, "content"@, 1);
    lemma_first_field_at(uf, "role"@, 0);
    lemma_first_field_at(uf, "content"@, 1);
    if starts_with_spec(model, "openai/gpt-oss-"@) {
        assert(model.subrange(0, 15)[0] == model[0]);
        assert("openai/gpt-oss-"@[0] == 'o');
        assert("qwen/qwen3-"@[0] == 'q');
        if starts_with_spec(model, "qwen/qwen3-"@) {
            assert(model.subrange(0, 11)[0] == model[0]);
        }
        assert(!starts_with_spec(model, "qwen/qwen3-"@));
    }
    match reasoning_effort_spec(model) {
        Some(e) => {
            assert(fields[5].0 == "include_reasoning"@);
            assert(fields[6].0 == "reasoning_effort"@);
            lemma_first_field_at(fields, "include_reasoning"@, 5);
            lemma_first_field_at(fields, "reasoning_effort"@, 6);
        },
        None => {
            assert(fields.len() == 5);
            assert(forall|k: int| 0 <= k < 5 ==> (#[trigger] fields[k]).0.len() != "include_reasoning"@.len());
            assert(forall|k: int| 0 <= k < 5 ==> (#[trigger] fields[k]).0.len() != "reasoning_effort"@.len());
            lemma_first_field_absent(fields, "include_reasoning"@);
            lemma_first_field_absent(fields, "reasoning_effort"@);
        },
    }
}

/// A Gemini request body sends the text as the user content and the
/// instructions as the system instruction, asks for plain text within the
/// token limit, and configures thinking by model: every Gemini 3 model
/// (`gemini-3...`) gets the configured thinking level, every Gemini 2.5
/// Flash model gets no thinking budget, and no other model gets a thinking
/// configuration.
pub proof fn lemma_gemini_body_members(
    model: Seq<char>,
    instructions: Seq<char>,
    input: Seq<char>,
    temperature_bits: u32,
    max_tokens: u32,
    level: Seq<char>,
)
    ensures
        ({
            let b = gemini_body_spec(model, instructions, input, temperature_bits, max_tokens, level);
            let config = json_get(b, "generationConfig"@);
            &&& opt_get(opt_first(opt_as_array(json_get(b, "contents"@))), "role"@) == Some(Json::Str("user"@))
            &&& sent_text(b, false) == Some(input)
            &&& sent_instructions(b, false) == Some(instructions)
            &&& opt_get(config, "responseMimeType"@) == Some(Json::Str("text/plain"@))
            &&& opt_get(config, "maxOutputTokens"@) == Some(Json::Number(JsonNum::Unsigned(max_tokens as u64)))
            &&& opt_get(config, "temperature"@) == Some(Json::Number(JsonNum::Float32Bits(temperature_bits)))
            &&& starts_with_spec(model, "gemini-3"@) ==> opt_get(config, "thinkingConfig"@)
                == Some(Json::Object(seq![("thinkingLevel"@, Json::Str(level))]))
            &&& starts_with_spec(model, "gemini-2.5-flash"@) ==> opt_get(config, "thinkingConfig"@)
                == Some(Json::Object(seq![("thinkingBudget"@, Json::Number(JsonNum::Unsigned(0)))]))
            &&& !starts_with_spec(model, "gemini-3"@) && !starts_with_spec(model, "gemini-2.5-flash"@)
                ==> opt_get(config, "thinkingConfig"@) is None
        }),
{
    reveal_strlit("contents");
    reveal_strlit("systemInstruction");
    reveal_strlit("generationConfig");
    reveal_strlit("role");
    reveal_strlit("parts");
    reveal_strlit("text");
    reveal_strlit("responseMimeType");
    reveal_strlit("maxOutputTokens");
    reveal_strlit("temperature");
    reveal_strlit("thinkingConfig");
    reveal_strlit("gemini-3");
    reveal_strlit("gemini-2.5-flash");
    let config = generation_config_spec(model, temperature_bits, max_tokens, level);
    let base = seq![
        ("responseMimeType"@, Json::Str("text/plain"@)),
        ("maxOutputTokens"@, Json::Number(JsonNum::Unsigned(max_tokens as u64))),
        ("temperature"@, Json::Number(JsonNum::Float32Bits(temperature_bits))),
    ];
    let cf = match thinking_config_spec(model, level) {
        Some(t) => base + seq![("thinkingConfig"@, t)],
        None => base,
    };
    assert(config == Json::Object(cf));
    assert(forall|k: int| 0 <= k < 3 ==> cf[k] == base[k]);
    assert(cf[0].0.len() == 16 && cf[1].0.len() == 15 && cf[2].0.len() == 11);
    lemma_first_field_at(cf, "responseMimeType"@, 0);
    lemma_first_field_at(cf, "maxOutputTokens"@, 1);
    lemma_first_field_at(cf, "temperature"@, 2);
    match thinking_config_spec(model, level) {
        Some(t) => {
            assert(cf[3].0 == "thinkingConfig"@);
            lemma_first_field_at(cf, "thinkingConfig"@, 3);
        },
        None => {
            assert(cf.len() == 3);
            assert(forall|k: int| 0 <= k < 3 ==> (#[trigger] cf[k]).0.len() != "thinkingConfig"@.len());
            lemma_first_field_absent(cf, "thinkingConfig"@);
        },
    }
    let user_fields = seq![("role"@, Json::Str("user"@)), ("parts"@, Json::Array(seq![text_part(input)]))];
    let system_fields = seq![("parts"@, Json::Array(seq![text_part(instructions)]))];
    let fields = seq![
        ("contents"@, Json::Array(seq![Json::Object(user_fields)])),
        ("systemInstruction"@, Json::Object(system_fields)),
        ("generationConfig"@, config),
    ];
    assert(gemini_body_spec(model, instructions, input, temperature_bits, max_tokens, level) == Json::Object(fields));
    assert(fields[0].0.len() == 8 && fields[1].0.len() == 17 && user_fields[0].0.len() == 4);
    lemma_first_field_at(fields, "contents"@, 0);
    lemma_first_field_at(fields, "systemInstruction"@, 1);
    lemma_first_field_at(fields, "generationConfig"@, 2);
    lemma_first_field_at(user_fields, "role"@, 0);
    lemma_first_field_at(user_fields, "parts"@, 1);
    lemma_first_field_at(system_fields, "parts"@, 0);
    lemma_first_field_at(seq![("text"@, Json::Str(input))], "text"@, 0);
    lemma_first_field_at(seq![("text"@, Json::Str(instructions))], "text"@, 0);
    if starts_with_spec(model, "gemini-2.5-flash"@) {
        assert(model.subrange(0, 16)[7] == model[7]);
        assert("gemini-2.5-flash"@[7] == '2');
        assert("gemini-3"@[7] == '3');
        if starts_with_spec(model, "gemini-3"@) {
            assert(model.subrange(0, 8)[7] == model[7]);
        }
        assert(!starts_with_spec(model, "gemini-3"@));
    }
}

} // verus!
