//! What a fresh configuration holds: the settings, the prompt profile and
//! the models offered for selection.
use vstd::prelude::*;
use crate::settings::{
    DEFAULT_TEMPERATURE_BITS, ModelChoice, ModelChoiceView, PersistedState, PromptProfile, Settings,
    model_id_error, provider_error, state_error,
};
use crate::shortcut::shortcut_vk_spec;
use crate::text::{is_blank_spec, is_ws, trimmed, lemma_trim_start_at, lemma_trim_end_at, CharClass};

verus! {

/// The instructions of the `Fix` profile: a minimal correction that keeps
/// the original language and tone.
pub open spec fn fix_instructions_spec() -> Seq<char> {
    "Corrige el texto de forma minima.\nArregla solo errores claros de ortografia, gramatica, puntuacion, concordancia u orden.\nConserva las palabras, estructura, tono e intencion originales siempre que sea posible.\nSi ya esta bien, devuelve practicamente lo mismo.\nMismo idioma. Espanol: Castellano de Espana.\nSin explicaciones, comentarios ni comillas."@
}

pub open spec fn free_model(provider: Seq<char>, id: Seq<char>, label: Seq<char>, note: Seq<char>) -> ModelChoiceView {
    ModelChoiceView { provider, id, label, note, free_tier: true }
}

/// The models offered for selection, in order; all of them have a free tier.
pub open spec fn default_models_spec() -> Seq<ModelChoiceView> {
    seq![
        free_model("gemini"@, "gemini-3.1-flash-lite"@, "Gemini 3.1 Flash-Lite"@, "Current cost-efficient free-tier default"@),
        free_model("gemini"@, "gemini-3.1-flash-lite-preview"@, "Gemini 3.1 Flash-Lite Preview"@, "Preview free-tier Flash-Lite option"@),
        free_model("gemini"@, "gemini-3-flash-preview"@, "Gemini 3 Flash Preview"@, "Higher-capability free-tier Flash preview"@),
        free_model("gemini"@, "gemini-2.5-flash"@, "Gemini 2.5 Flash"@, "Free-tier low-latency rewrite model"@),
        free_model("gemini"@, "gemini-2.5-flash-lite"@, "Gemini 2.5 Flash-Lite"@, "Stable 2.5 free-tier fallback"@),
        free_model("groq"@, "openai/gpt-oss-120b"@, "Groq GPT-OSS 120B"@, "GroqCloud text model, developer/free-tier rate limits"@),
        free_model("groq"@, "openai/gpt-oss-20b"@, "Groq GPT-OSS 20B"@, "Very fast GroqCloud text model"@),
        free_model("groq"@, "llama-3.3-70b-versatile"@, "Groq Llama 3.3 70B"@, "General-purpose GroqCloud production model"@),
        free_model("groq"@, "llama-3.1-8b-instant"@, "Groq Llama 3.1 8B Instant"@, "Lowest-latency GroqCloud production model"@),
        free_model("groq"@, "meta-llama/llama-4-scout-17b-16e-instruct"@, "Groq Llama 4 Scout"@, "Preview text/vision-capable model; useful for latency testing"@),
        free_model("groq"@, "qwen/qwen3-32b"@, "Groq Qwen3 32B"@, "Preview reasoning-capable text model"@),
        free_model("groq"@, "groq/compound-mini"@, "Groq Compound Mini"@, "Groq system model with tool-capable routing"@),
        free_model("groq"@, "groq/compound"@, "Groq Compound"@, "Groq system model with web/code tooling support"@),
    ]
}

/// The settings of a fresh configuration: Groq with Llama 3.3 70B, the
/// `fix` profile, 512 output tokens, temperature 0.2, automatic paste, and
/// `Ctrl+C` pressed twice within 650 ms as the shortcut.
pub open spec fn is_default_settings(s: Settings) -> bool {
    &&& s.api_key@ == Seq::<char>::empty()
    &&& is_default_apart_from_key(s)
}

/// Every setting but the Gemini API key is that of a fresh configuration.
pub open spec fn is_default_apart_from_key(s: Settings) -> bool {
    &&& s.selected_provider@ == "groq"@
    &&& s.groq_api_key@ == Seq::<char>::empty()
    &&& s.selected_model@ == "llama-3.3-70b-versatile"@
    &&& s.custom_model@ == Seq::<char>::empty()
    &&& s.selected_profile@ == "fix"@
    &&& s.max_output_tokens == 512
    &&& s.thinking_level@ == "minimal"@
    &&& s.temperature_bits == DEFAULT_TEMPERATURE_BITS
    &&& s.auto_paste
    &&& s.show_window_on_start
    &&& s.shortcut_enabled
    &&& s.shortcut_key@ == "C"@
    &&& s.shortcut_ctrl
    &&& !s.shortcut_alt
    &&& !s.shortcut_shift
    &&& !s.shortcut_win
    &&& s.shortcut_presses == 2
    &&& s.shortcut_window_ms == 650
    &&& s.show_status_overlay
}

/// The profiles of a fresh configuration: the single `Fix` profile.
pub open spec fn is_default_profiles(ps: Seq<PromptProfile>) -> bool {
    &&& ps.len() == 1
    &&& ps[0].id@ == "fix"@
    &&& ps[0].title@ == "Fix"@
    &&& ps[0].instructions@ == fix_instructions_spec()
}

/// The provider of a fresh configuration.
pub fn default_provider() -> (r: String)
    ensures
        r@ == "groq"@,
{
    "groq".to_owned()
}

pub fn default_status_overlay_enabled() -> (r: bool)
    ensures
        r,
{
    true
}

pub fn default_shortcut_enabled() -> (r: bool)
    ensures
        r,
{
    true
}

pub fn default_shortcut_key() -> (r: String)
    ensures
        r@ == "C"@,
{
    "C".to_owned()
}

pub fn default_shortcut_ctrl() -> (r: bool)
    ensures
        r,
{
    true
}

pub fn default_shortcut_presses() -> (r: u32)
    ensures
        r == 2,
{
    2
}

pub fn default_shortcut_window_ms() -> (r: u64)
    ensures
        r == 650,
{
    650
}

fn free_model_choice(provider: &str, id: &str, label: &str, note: &str) -> (m: ModelChoice)
    ensures
        m@ == free_model(provider@, id@, label@, note@),
{
    ModelChoice {
        provider: provider.to_owned(),
        id: id.to_owned(),
        label: label.to_owned(),
        note: note.to_owned(),
        free_tier: true,
    }
}

/// The models offered for selection.
pub fn default_models() -> (r: Vec<ModelChoice>)
    ensures
        r@.map_values(|m: ModelChoice| m@) == default_models_spec(),
{
    let r = vec![
        free_model_choice("gemini", "gemini-3.1-flash-lite", "Gemini 3.1 Flash-Lite", "Current cost-efficient free-tier default"),
        free_model_choice("gemini", "gemini-3.1-flash-lite-preview", "Gemini 3.1 Flash-Lite Preview", "Preview free-tier Flash-Lite option"),
        free_model_choice("gemini", "gemini-3-flash-preview", "Gemini 3 Flash Preview", "Higher-capability free-tier Flash preview"),
        free_model_choice("gemini", "gemini-2.5-flash", "Gemini 2.5 Flash", "Free-tier low-latency rewrite model"),
        free_model_choice("gemini", "gemini-2.5-flash-lite", "Gemini 2.5 Flash-Lite", "Stable 2.5 free-tier fallback"),
        free_model_choice("groq", "openai/gpt-oss-120b", "Groq GPT-OSS 120B", "GroqCloud text model, developer/free-tier rate limits"),
        free_model_choice("groq", "openai/gpt-oss-20b", "Groq GPT-OSS 20B", "Very fast GroqCloud text model"),
        free_model_choice("groq", "llama-3.3-70b-versatile", "Groq Llama 3.3 70B", "General-purpose GroqCloud production model"),
        free_model_choice("groq", "llama-3.1-8b-instant", "Groq Llama 3.1 8B Instant", "Lowest-latency GroqCloud production model"),
        free_model_choice("groq", "meta-llama/llama-4-scout-17b-16e-instruct", "Groq Llama 4 Scout", "Preview text/vision-capable model; useful for latency testing"),
        free_model_choice("groq", "qwen/qwen3-32b", "Groq Qwen3 32B", "Preview reasoning-capable text model"),
        free_model_choice("groq", "groq/compound-mini", "Groq Compound Mini", "Groq system model with tool-capable routing"),
        free_model_choice("groq", "groq/compound", "Groq Compound", "Groq system model with web/code tooling support"),
    ];
    assert(r@.map_values(|m: ModelChoice| m@) =~= default_models_spec());
    r
}

/// The prompt profiles of a fresh configuration.
pub fn default_profiles() -> (r: Vec<PromptProfile>)
    ensures
        is_default_profiles(r@),
{
    vec![
        PromptProfile {
            id: "fix".to_owned(),
            title: "Fix".to_owned(),
            instructions: "Corrige el texto de forma minima.\nArregla solo errores claros de ortografia, gramatica, puntuacion, concordancia u orden.\nConserva las palabras, estructura, tono e intencion originales siempre que sea posible.\nSi ya esta bien, devuelve practicamente lo mismo.\nMismo idioma. Espanol: Castellano de Espana.\nSin explicaciones, comentarios ni comillas.".to_owned(),
        },
    ]
}

/// The settings of a fresh configuration.
pub fn default_settings() -> (s: Settings)
    ensures
        is_default_settings(s),
{
    Settings {
        selected_provider: default_provider(),
        api_key: String::new(),
        groq_api_key: String::new(),
        selected_model: "llama-3.3-70b-versatile".to_owned(),
        custom_model: String::new(),
        selected_profile: "fix".to_owned(),
        max_output_tokens: 512,
        thinking_level: "minimal".to_owned(),
        temperature_bits: DEFAULT_TEMPERATURE_BITS,
        auto_paste: true,
        show_window_on_start: true,
        shortcut_enabled: default_shortcut_enabled(),
        shortcut_key: default_shortcut_key(),
        shortcut_ctrl: default_shortcut_ctrl(),
        shortcut_alt: false,
        shortcut_shift: false,
        shortcut_win: false,
        shortcut_presses: default_shortcut_presses(),
        shortcut_window_ms: default_shortcut_window_ms(),
        show_status_overlay: default_status_overlay_enabled(),
    }
}

/// The state used when nothing was saved yet: the default settings, with
/// the Gemini API key found in the environment if there is one, and the
/// default profiles.
pub fn fresh_state(api_key: Option<String>) -> (r: PersistedState)
    ensures
        is_default_profiles(r.profiles@),
        is_default_apart_from_key(r.settings),
        r.settings.api_key@ == (match api_key {
            Some(k) => k@,
            None => Seq::<char>::empty(),
        }),
{
    let mut settings = default_settings();
    match api_key {
        Some(k) => {
            settings.api_key = k;
        },
        None => {},
    }
    PersistedState { settings, profiles: default_profiles() }
}

/// A fresh configuration passes the checks that saving and importing
/// apply, whatever Gemini API key it holds.
pub proof fn lemma_fresh_configuration_is_valid(s: Settings, ps: Seq<PromptProfile>)
    requires
        is_default_apart_from_key(s),
        is_default_profiles(ps),
    ensures
        state_error(s, ps) is None,
{
    reveal_strlit("C");
    reveal_strlit("groq");
    reveal_strlit("gemini");
    reveal_strlit("llama-3.3-70b-versatile");
    reveal_strlit("fix");
    reveal_strlit("Fix");
    reveal_strlit("custom");
    lemma_single_char_trims_to_itself(s.shortcut_key@);
    assert(shortcut_vk_spec(s.shortcut_key@) == Some(0x43u32));
    let m = s.selected_model@;
    assert(!(exists|i: int| 0 <= i < m.len() && crate::settings::invalid_model_char(#[trigger] m[i])));
    assert(model_id_error("groq"@, m) is None);
    assert(!is_ws(ps[0].id@[0]));
    assert(!is_ws(ps[0].title@[0]));
    reveal_strlit("Corrige el texto de forma minima.\nArregla solo errores claros de ortografia, gramatica, puntuacion, concordancia u orden.\nConserva las palabras, estructura, tono e intencion originales siempre que sea posible.\nSi ya esta bien, devuelve practicamente lo mismo.\nMismo idioma. Espanol: Castellano de Espana.\nSin explicaciones, comentarios ni comillas.");
    assert(!is_ws(ps[0].instructions@[0]));
    assert(!is_blank_spec(ps[0].instructions@));
    assert(ps.drop_first().len() == 0);
    assert(crate::settings::selected_provider_spec(s) == "groq"@);
    assert(crate::settings::selected_model_spec(s) == m);
    assert(crate::settings::temperature_in_range(s.temperature_bits));
    assert(crate::settings::settings_error(s) is None);
    assert(crate::settings::profile_error(ps[0]) is None);
    assert(crate::settings::first_profile_error(ps.drop_first()) is None);
    assert(crate::settings::profiles_error(ps) is None);
}

proof fn lemma_single_char_trims_to_itself(s: Seq<char>)
    requires
        s.len() == 1,
        !is_ws(s[0]),
    ensures
        trimmed(s) == s,
{
    lemma_trim_start_at(s, CharClass::Whitespace, 0);
    assert(s.subrange(0, 1) =~= s);
    lemma_trim_end_at(s, CharClass::Whitespace, 1);
}

/// Every model offered for selection names a known provider and is a valid
/// model id for it.
pub proof fn lemma_default_models_are_valid()
    ensures
        forall|i: int| 0 <= i < default_models_spec().len() ==> model_entry_ok(#[trigger] default_models_spec()[i]),
{
    reveal_strlit("gemini");
    reveal_strlit("groq");
    reveal_strlit("gemini-3.1-flash-lite");
    reveal_strlit("gemini-3.1-flash-lite-preview");
    reveal_strlit("gemini-3-flash-preview");
    reveal_strlit("gemini-2.5-flash");
    reveal_strlit("gemini-2.5-flash-lite");
    reveal_strlit("openai/gpt-oss-120b");
    reveal_strlit("openai/gpt-oss-20b");
    reveal_strlit("llama-3.3-70b-versatile");
    reveal_strlit("llama-3.1-8b-instant");
    reveal_strlit("meta-llama/llama-4-scout-17b-16e-instruct");
    reveal_strlit("qwen/qwen3-32b");
    reveal_strlit("groq/compound-mini");
    reveal_strlit("groq/compound");
    assert("groq"@.len() != "gemini"@.len());
    assert("groq"@ != "gemini"@);
    assert(model_entry_ok(default_models_spec()[0]));
    assert(model_entry_ok(default_models_spec()[1]));
    assert(model_entry_ok(default_models_spec()[2]));
    assert(model_entry_ok(default_models_spec()[3]));
    assert(model_entry_ok(default_models_spec()[4]));
    let id5 = "openai/gpt-oss-120b"@;
    assert(id5.len() > 0);
    assert(!(exists|j: int| 0 <= j < id5.len() && crate::settings::invalid_model_char(#[trigger] id5[j])));
    assert(default_models_spec()[5].provider == "groq"@);
    assert(default_models_spec()[5].id == id5);
    assert(model_entry_ok(default_models_spec()[5]));
    let id6 = "openai/gpt-oss-20b"@;
    assert(id6.len() > 0);
    assert(!(exists|j: int| 0 <= j < id6.len() && crate::settings::invalid_model_char(#[trigger] id6[j])));
    assert(default_models_spec()[6].provider == "groq"@);
    assert(default_models_spec()[6].id == id6);
    assert(model_entry_ok(default_models_spec()[6]));
    assert(model_entry_ok(default_models_spec()[7]));
    assert(model_entry_ok(default_models_spec()[8]));
    assert(model_entry_ok(default_models_spec()[9]));
    assert(model_entry_ok(default_models_spec()[10]));
    assert(model_entry_ok(default_models_spec()[11]));
    assert(model_entry_ok(default_models_spec()[12]));
}

/// The entry names a known provider and is a valid model id for it.
pub open spec fn model_entry_ok(m: ModelChoiceView) -> bool {
    provider_error(m.provider) is None && model_id_error(m.provider, m.id) is None
}

} // verus!
