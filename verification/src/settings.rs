//! Settings and prompt profiles: their defaults, the rules they are checked
//! against, and the provider and model they select.
use vstd::prelude::*;
use crate::shortcut::{shortcut_vk, shortcut_vk_spec};
use crate::text::{
    concat3, contains_char, err_of, is_blank, is_blank_spec, is_whitespace, is_ws, str_eq, trim,
    trimmed,
};

verus! {

/// A model offered for selection.
#[derive(Clone, Debug)]
pub struct ModelChoice {
    pub provider: String,
    pub id: String,
    pub label: String,
    pub note: String,
    pub free_tier: bool,
}

pub struct ModelChoiceView {
    pub provider: Seq<char>,
    pub id: Seq<char>,
    pub label: Seq<char>,
    pub note: Seq<char>,
    pub free_tier: bool,
}

impl View for ModelChoice {
    type V = ModelChoiceView;

    open spec fn view(&self) -> ModelChoiceView {
        ModelChoiceView {
            provider: self.provider@,
            id: self.id@,
            label: self.label@,
            note: self.note@,
            free_tier: self.free_tier,
        }
    }
}

/// Instructions sent along with the text to rewrite.
#[derive(Clone, Debug)]
pub struct PromptProfile {
    pub id: String,
    pub title: String,
    pub instructions: String,
}

/// The user's settings. The temperature is an `f32`, held here by its bits.
#[derive(Clone, Debug)]
pub struct Settings {
    pub selected_provider: String,
    pub api_key: String,
    pub groq_api_key: String,
    pub selected_model: String,
    pub custom_model: String,
    pub selected_profile: String,
    pub max_output_tokens: u32,
    pub thinking_level: String,
    /// `f32::to_bits` of the sampling temperature.
    pub temperature_bits: u32,
    pub auto_paste: bool,
    pub show_window_on_start: bool,
    pub shortcut_enabled: bool,
    pub shortcut_key: String,
    pub shortcut_ctrl: bool,
    pub shortcut_alt: bool,
    pub shortcut_shift: bool,
    pub shortcut_win: bool,
    pub shortcut_presses: u32,
    pub shortcut_window_ms: u64,
    pub show_status_overlay: bool,
}

/// Everything that is saved: the settings and the prompt profiles.
#[derive(Clone, Debug)]
pub struct PersistedState {
    pub settings: Settings,
    pub profiles: Vec<PromptProfile>,
}

/// The outcome of one rewrite.
#[derive(Clone, Debug)]
pub struct TransformResult {
    pub input: String,
    pub output: String,
    pub provider: String,
    pub model: String,
    pub profile: String,
}

pub struct TransformResultView {
    pub input: Seq<char>,
    pub output: Seq<char>,
    pub provider: Seq<char>,
    pub model: Seq<char>,
    pub profile: Seq<char>,
}

impl View for TransformResult {
    type V = TransformResultView;

    open spec fn view(&self) -> TransformResultView {
        TransformResultView {
            input: self.input@,
            output: self.output@,
            provider: self.provider@,
            model: self.model@,
            profile: self.profile@,
        }
    }
}

/// The bits of `0.2f32`.
pub const DEFAULT_TEMPERATURE_BITS: u32 = 0x3E4C_CCCD;

/// Whether the `f32` with these bits lies in `0.0..=2.0`. Non-negative
/// floats order like their bits, `2.0` has the bits `0x4000_0000`, `-0.0`
/// equals `0.0`, and no NaN falls in the range.
pub open spec fn temperature_in_range(bits: u32) -> bool {
    bits <= 0x4000_0000 || bits == 0x8000_0000
}

/// The provider a selection names: `groq`, and `gemini` for anything else.
pub open spec fn provider_choice(selected: Seq<char>) -> Seq<char> {
    if selected == "groq"@ {
        "groq"@
    } else {
        "gemini"@
    }
}

pub open spec fn selected_provider_spec(s: Settings) -> Seq<char> {
    provider_choice(s.selected_provider@)
}

/// The model in use: the trimmed custom model when `custom` is selected.
pub open spec fn selected_model_spec(s: Settings) -> Seq<char> {
    if s.selected_model@ == "custom"@ {
        trimmed(s.custom_model@)
    } else {
        s.selected_model@
    }
}

pub open spec fn provider_error(provider: Seq<char>) -> Option<Seq<char>> {
    if provider == "gemini"@ || provider == "groq"@ {
        None
    } else {
        Some("Provider must be gemini or groq"@)
    }
}

/// A character a model id may not hold: white space, `?`, `&` or `#`.
pub open spec fn invalid_model_char(c: char) -> bool {
    is_ws(c) || c == '?' || c == '&' || c == '#'
}

pub open spec fn model_id_error(provider: Seq<char>, model: Seq<char>) -> Option<Seq<char>> {
    if model.len() == 0 || exists|i: int| 0 <= i < model.len() && invalid_model_char(#[trigger] model[i]) {
        Some(provider + " model id is invalid"@)
    } else if provider == "gemini"@ && model.contains('/') {
        Some("Gemini model id must not include a provider prefix or slash"@)
    } else {
        None
    }
}

/// The first rule that the settings break, in the order they are checked.
pub open spec fn settings_error(s: Settings) -> Option<Seq<char>> {
    if s.max_output_tokens == 0 || s.max_output_tokens > 4096 {
        Some("Max output tokens must be between 1 and 4096"@)
    } else if !temperature_in_range(s.temperature_bits) {
        Some("Temperature must be between 0 and 2"@)
    } else if shortcut_vk_spec(s.shortcut_key@) is None {
        Some("Shortcut key must be A-Z, 0-9, or F1-F12"@)
    } else if s.shortcut_presses == 0 || s.shortcut_presses > 4 {
        Some("Shortcut press count must be between 1 and 4"@)
    } else if s.shortcut_window_ms < 150 || s.shortcut_window_ms > 2000 {
        Some("Shortcut window must be between 150 and 2000 ms"@)
    } else if provider_error(selected_provider_spec(s)) is Some {
        provider_error(selected_provider_spec(s))
    } else {
        model_id_error(selected_provider_spec(s), selected_model_spec(s))
    }
}

pub open spec fn profile_error(p: PromptProfile) -> Option<Seq<char>> {
    if is_blank_spec(p.id@) || is_blank_spec(p.title@) {
        Some("Prompt profiles need an id and title"@)
    } else if is_blank_spec(p.instructions@) {
        Some("Prompt profile '"@ + p.title@ + "' has empty instructions"@)
    } else {
        None
    }
}

/// The error of the first profile that has one.
pub open spec fn first_profile_error(ps: Seq<PromptProfile>) -> Option<Seq<char>>
    decreases ps.len(),
{
    if ps.len() == 0 {
        None
    } else {
        match profile_error(ps[0]) {
            Some(e) => Some(e),
            None => first_profile_error(ps.drop_first()),
        }
    }
}

pub open spec fn profiles_error(ps: Seq<PromptProfile>) -> Option<Seq<char>> {
    if ps.len() == 0 {
        Some("At least one prompt profile is required"@)
    } else {
        first_profile_error(ps)
    }
}

/// The settings checked first, then the profiles.
pub open spec fn state_error(s: Settings, ps: Seq<PromptProfile>) -> Option<Seq<char>> {
    match settings_error(s) {
        Some(e) => Some(e),
        None => profiles_error(ps),
    }
}

/// The provider a rewrite uses once an optional provider override applies.
pub open spec fn overridden_provider(s: Settings, provider_id: Option<String>) -> Seq<char> {
    match provider_id {
        Some(p) => provider_choice(trimmed(p@)),
        None => selected_provider_spec(s),
    }
}

/// Why the overrides of a single rewrite are refused, if they are.
pub open spec fn override_error(
    s: Settings,
    provider_id: Option<String>,
    model_id: Option<String>,
) -> Option<Seq<char>> {
    let pe = match provider_id {
        Some(p) => provider_error(trimmed(p@)),
        None => None,
    };
    if pe is Some {
        pe
    } else {
        match model_id {
            Some(m) => model_id_error(overridden_provider(s, provider_id), trimmed(m@)),
            None => None,
        }
    }
}

/// `Ok(())` when `provider` is `gemini` or `groq`.
pub fn validate_provider_id(provider: &str) -> (r: Result<(), String>)
    ensures
        err_of(r) == provider_error(provider@),
{
    if str_eq(provider, "gemini") || str_eq(provider, "groq") {
        Ok(())
    } else {
        Err("Provider must be gemini or groq".to_owned())
    }
}

/// `Ok(())` when `model` is a usable model id for `provider`: not empty, no
/// white space, `?`, `&` or `#`, and for Gemini no `/`.
pub fn validate_model_id_for_provider(provider: &str, model: &str) -> (r: Result<(), String>)
    ensures
        err_of(r) == model_id_error(provider@, model@),
{
    let n = model.unicode_len();
    let mut bad = n == 0;
    let mut i: usize = 0;
    while i < n && !bad
        invariant
            n == model@.len(),
            0 <= i <= n,
            bad == (n == 0 || exists|j: int| 0 <= j < i && invalid_model_char(#[trigger] model@[j])),
        decreases n - i,
    {
        let c = model.get_char(i);
        if is_whitespace(c) || c == '?' || c == '&' || c == '#' {
            assert(invalid_model_char(model@[i as int]));
            bad = true;
        }
        i = i + 1;
    }
    if bad {
        let mut e = provider.to_owned();
        e.append(" model id is invalid");
        return Err(e);
    }
    assert(!(exists|j: int| 0 <= j < n && invalid_model_char(#[trigger] model@[j])));
    if str_eq(provider, "gemini") && contains_char(model, '/') {
        return Err("Gemini model id must not include a provider prefix or slash".to_owned());
    }
    Ok(())
}

/// The provider the settings select: `groq`, or `gemini` for anything else.
pub fn selected_provider_id(settings: &Settings) -> (r: String)
    ensures
        r@ == selected_provider_spec(*settings),
{
    if str_eq(settings.selected_provider.as_str(), "groq") {
        "groq".to_owned()
    } else {
        "gemini".to_owned()
    }
}

/// The model the settings select: the trimmed custom model id when the
/// selection is `custom`.
pub fn selected_model_id(settings: &Settings) -> (r: String)
    ensures
        r@ == selected_model_spec(*settings),
{
    if str_eq(settings.selected_model.as_str(), "custom") {
        trim(settings.custom_model.as_str()).to_owned()
    } else {
        settings.selected_model.clone()
    }
}

/// Checks the settings, rule by rule, and reports the first rule broken.
pub fn validate_settings(settings: &Settings) -> (r: Result<(), String>)
    ensures
        err_of(r) == settings_error(*settings),
{
    if settings.max_output_tokens == 0 || settings.max_output_tokens > 4096 {
        return Err("Max output tokens must be between 1 and 4096".to_owned());
    }
    let t = settings.temperature_bits;
    if !(t <= 0x4000_0000 || t == 0x8000_0000) {
        return Err("Temperature must be between 0 and 2".to_owned());
    }
    if shortcut_vk(settings.shortcut_key.as_str()).is_none() {
        return Err("Shortcut key must be A-Z, 0-9, or F1-F12".to_owned());
    }
    if settings.shortcut_presses == 0 || settings.shortcut_presses > 4 {
        return Err("Shortcut press count must be between 1 and 4".to_owned());
    }
    if settings.shortcut_window_ms < 150 || settings.shortcut_window_ms > 2000 {
        return Err("Shortcut window must be between 150 and 2000 ms".to_owned());
    }
    let provider = selected_provider_id(settings);
    match validate_provider_id(provider.as_str()) {
        Ok(()) => {},
        Err(e) => {
            return Err(e);
        },
    }
    let model = selected_model_id(settings);
    validate_model_id_for_provider(provider.as_str(), model.as_str())
}

/// Checks every profile, in order, and reports the first problem: no
/// profile at all, a blank id or title, or blank instructions.
pub fn validate_profiles(profiles: &[PromptProfile]) -> (r: Result<(), String>)
    ensures
        err_of(r) == profiles_error(profiles@),
{
    if profiles.len() == 0 {
        return Err("At least one prompt profile is required".to_owned());
    }
    let ghost ps = profiles@;
    assert(ps.skip(0) =~= ps);
    let mut i: usize = 0;
    while i < profiles.len()
        invariant
            ps == profiles@,
            ps.len() > 0,
            0 <= i <= ps.len(),
            first_profile_error(ps) == first_profile_error(ps.skip(i as int)),
        decreases ps.len() - i,
    {
        let p = &profiles[i];
        let ghost rest = ps.skip(i as int);
        assert(rest[0] == ps[i as int]);
        if is_blank(p.id.as_str()) || is_blank(p.title.as_str()) {
            return Err("Prompt profiles need an id and title".to_owned());
        }
        if is_blank(p.instructions.as_str()) {
            return Err(concat3("Prompt profile '", p.title.as_str(), "' has empty instructions"));
        }
        assert(rest.drop_first() =~= ps.skip(i + 1));
        i = i + 1;
    }
    assert(ps.skip(ps.len() as int).len() == 0);
    Ok(())
}

/// Checks the settings, then the profiles, as saving and importing do.
pub fn validate_state(settings: &Settings, profiles: &[PromptProfile]) -> (r: Result<(), String>)
    ensures
        err_of(r) == state_error(*settings, profiles@),
{
    match validate_settings(settings) {
        Ok(()) => validate_profiles(profiles),
        Err(e) => Err(e),
    }
}

/// The profile a clipboard rewrite uses: the first whose id is the
/// selected one, else the first profile.
pub fn select_profile(profiles: &[PromptProfile], selected: &str) -> (r: Result<usize, String>)
    ensures
        profiles@.len() > 0 <==> r is Ok,
        match r {
            Ok(i) => i < profiles@.len() && (if exists|j: int| 0 <= j < profiles@.len() && (#[trigger] profiles@[j]).id@ == selected@ {
                profiles@[i as int].id@ == selected@ && forall|j: int| 0 <= j < i ==> (#[trigger] profiles@[j]).id@ != selected@
            } else {
                i == 0
            }),
            Err(e) => e@ == "no prompt profiles available"@,
        },
{
    let mut i: usize = 0;
    while i < profiles.len()
        invariant
            0 <= i <= profiles@.len(),
            forall|j: int| 0 <= j < i ==> (#[trigger] profiles@[j]).id@ != selected@,
        decreases profiles@.len() - i,
    {
        if str_eq(profiles[i].id.as_str(), selected) {
            return Ok(i);
        }
        i = i + 1;
    }
    if profiles.len() == 0 {
        Err("no prompt profiles available".to_owned())
    } else {
        Ok(0)
    }
}

/// Applies the provider and model chosen for one rewrite, both trimmed, to
/// a copy of the settings; a model override also clears the custom model.
pub fn apply_transform_overrides(
    settings: Settings,
    provider_id: Option<String>,
    model_id: Option<String>,
) -> (r: Result<Settings, String>)
    ensures
        match r {
            Ok(s) => {
                &&& override_error(settings, provider_id, model_id) is None
                &&& s.selected_provider@ == (match provider_id {
                    Some(p) => trimmed(p@),
                    None => settings.selected_provider@,
                })
                &&& s.selected_model@ == (match model_id {
                    Some(m) => trimmed(m@),
                    None => settings.selected_model@,
                })
                &&& s.custom_model@ == (match model_id {
                    Some(m) => Seq::<char>::empty(),
                    None => settings.custom_model@,
                })
                &&& s == (Settings {
                    selected_provider: s.selected_provider,
                    selected_model: s.selected_model,
                    custom_model: s.custom_model,
                    ..settings
                })
            },
            Err(e) => override_error(settings, provider_id, model_id) == Some(e@),
        },
{
    let mut settings = settings;
    let ghost original = settings;
    match &provider_id {
        Some(p) => {
            let p = trim(p.as_str());
            match validate_provider_id(p) {
                Ok(()) => {},
                Err(e) => {
                    return Err(e);
                },
            }
            settings.selected_provider = p.to_owned();
        },
        None => {},
    }
    let ghost mid = settings;
    assert(selected_provider_spec(mid) == overridden_provider(original, provider_id));
    match &model_id {
        Some(m) => {
            let m = trim(m.as_str());
            let provider = selected_provider_id(&settings);
            match validate_model_id_for_provider(provider.as_str(), m) {
                Ok(()) => {},
                Err(e) => {
                    return Err(e);
                },
            }
            settings.selected_model = m.to_owned();
            settings.custom_model = String::new();
        },
        None => {},
    }
    Ok(settings)
}

/// The record of a finished rewrite, naming the provider and model that the
/// settings select.
pub fn transform_result(settings: &Settings, input: String, output: String, profile: String) -> (r: TransformResult)
    ensures
        r.input == input,
        r.output == output,
        r.profile == profile,
        r.provider@ == selected_provider_spec(*settings),
        r.model@ == selected_model_spec(*settings),
{
    TransformResult {
        input,
        output,
        provider: selected_provider_id(settings),
        model: selected_model_id(settings),
        profile,
    }
}

/// Refuses clipboard text that is empty or white space only.
pub fn check_clipboard_text(input: &str) -> (r: Result<(), String>)
    ensures
        err_of(r) == (if is_blank_spec(input@) {
            Some("Clipboard is empty"@)
        } else {
            None
        }),
{
    if is_blank(input) {
        Err("Clipboard is empty".to_owned())
    } else {
        Ok(())
    }
}

/// Whether the rewritten text is pasted: when the settings ask for it, or
/// when the rewrite was of a selection.
pub fn should_paste(settings: &Settings, force_paste: bool) -> (b: bool)
    ensures
        b == (settings.auto_paste || force_paste),
{
    settings.auto_paste || force_paste
}

/// The provider the settings select is always one of the two known ones,
/// so the provider check of `validate_settings` never fails.
pub proof fn lemma_selected_provider_is_known(s: Settings)
    ensures
        provider_error(selected_provider_spec(s)) is None,
{
}

/// After a model override is accepted, the settings select that model for
/// the provider it was checked against, so it passes the model check again
/// (unless the override is the word `custom`, which selects the custom
/// model, now cleared).
pub proof fn lemma_accepted_override_selects_valid_model(
    s: Settings,
    provider_id: Option<String>,
    model_id: Option<String>,
    r: Settings,
)
    requires
        override_error(s, provider_id, model_id) is None,
        r.selected_provider@ == (match provider_id {
            Some(p) => trimmed(p@),
            None => s.selected_provider@,
        }),
        model_id matches Some(m) && r.selected_model@ == trimmed(m@) && trimmed(m@) != "custom"@,
    ensures
        model_id_error(selected_provider_spec(r), selected_model_spec(r)) is None,
{
}

/// The settings pass their checks exactly when the output token limit is
/// 1 to 4096, the temperature is 0 to 2, the shortcut key is a letter, a
/// digit or F1 to F12, the shortcut takes 1 to 4 presses within 150 to 2000
/// ms, and the selected model is a valid id for the selected provider.
pub proof fn lemma_settings_accepted_in_range(s: Settings)
    ensures
        settings_error(s) is None <==> {
            &&& 1 <= s.max_output_tokens <= 4096
            &&& temperature_in_range(s.temperature_bits)
            &&& shortcut_vk_spec(s.shortcut_key@) is Some
            &&& 1 <= s.shortcut_presses <= 4
            &&& 150 <= s.shortcut_window_ms <= 2000
            &&& model_id_error(selected_provider_spec(s), selected_model_spec(s)) is None
        },
{
    reveal_strlit("groq");
    reveal_strlit("gemini");
}

} // verus!
