//! The order of the steps of a rewrite, as a machine from state and event to
//! next state and effects. The program performs each effect in turn (reading
//! and writing the clipboard, serialising the request body, sending it,
//! pasting, reporting the stage reached) and hands back what came of it.
use vstd::prelude::*;
use vstd::utf8::{decode_utf8, valid_utf8};
use crate::generation::{
    GenerationPlan, HttpRequest, RequestView, check_api_key, decode_reply, extract_generated_text,
    gemini_body_spec, generation_request, groq_body_spec, key_error, lemma_gemini_body_members,
    lemma_groq_body_members, plan_generation, reply_text_spec, request_body, sent_instructions,
    sent_text, utf8_error_text,
};
use crate::json::{Json, JsonValue};
use crate::settings::{
    PromptProfile, Settings, TransformResult, TransformResultView, check_clipboard_text,
    model_id_error, selected_model_spec, selected_provider_id, selected_provider_spec,
    select_profile, should_paste, transform_result,
};
use crate::text::{is_blank_spec, str_eq, trimmed};

verus! {

/// Something the program is asked to do.
#[derive(Debug)]
pub enum FixEffect {
    /// Report that a stage was reached, with a message.
    Status(String, String),
    /// Read the clipboard text; `ClipboardRead` answers.
    ReadClipboard,
    /// Serialise this request body; `BodySerialized` answers.
    SerializeBody(JsonValue),
    /// Send this request; `Replied` answers with the reply's bytes.
    Post(HttpRequest),
    /// Put this text on the clipboard; `ClipboardWritten` answers.
    WriteClipboard(String),
    /// Paste into the active application.
    Paste,
    /// The rewrite is done.
    Done(TransformResult),
    /// The rewrite failed with this error.
    Fail(String),
}

/// What came of the last effect.
#[derive(Debug)]
pub enum FixEvent {
    ClipboardRead(Result<String, String>),
    BodySerialized(String),
    Replied(Result<Vec<u8>, String>),
    ClipboardWritten(Result<(), String>),
}

pub ghost enum EffectView {
    Status(Seq<char>, Seq<char>),
    ReadClipboard,
    SerializeBody(Json),
    Post(RequestView),
    WriteClipboard(Seq<char>),
    Paste,
    Done(TransformResultView),
    Fail(Seq<char>),
}

pub ghost enum EventView {
    ClipboardRead(Result<Seq<char>, Seq<char>>),
    BodySerialized(Seq<char>),
    Replied(Result<Seq<u8>, Seq<char>>),
    ClipboardWritten(Result<(), Seq<char>>),
}

impl View for FixEffect {
    type V = EffectView;

    open spec fn view(&self) -> EffectView {
        match self {
            FixEffect::Status(stage, message) => EffectView::Status(stage@, message@),
            FixEffect::ReadClipboard => EffectView::ReadClipboard,
            FixEffect::SerializeBody(body) => EffectView::SerializeBody(body@),
            FixEffect::Post(request) => EffectView::Post(request@),
            FixEffect::WriteClipboard(text) => EffectView::WriteClipboard(text@),
            FixEffect::Paste => EffectView::Paste,
            FixEffect::Done(result) => EffectView::Done(result@),
            FixEffect::Fail(error) => EffectView::Fail(error@),
        }
    }
}

impl View for FixEvent {
    type V = EventView;

    open spec fn view(&self) -> EventView {
        match self {
            FixEvent::ClipboardRead(r) => EventView::ClipboardRead(
                match r {
                    Ok(t) => Ok(t@),
                    Err(e) => Err(e@),
                },
            ),
            FixEvent::BodySerialized(b) => EventView::BodySerialized(b@),
            FixEvent::Replied(r) => EventView::Replied(
                match r {
                    Ok(bytes) => Ok(bytes@),
                    Err(e) => Err(e@),
                },
            ),
            FixEvent::ClipboardWritten(r) => EventView::ClipboardWritten(
                match r {
                    Ok(()) => Ok(()),
                    Err(e) => Err(e@),
                },
            ),
        }
    }
}

/// The views of a list of effects.
pub open spec fn effects_view(effects: Seq<FixEffect>) -> Seq<EffectView> {
    effects.map_values(|e: FixEffect| e@)
}

/// Where a rewrite stands.
pub ghost enum StageView {
    ReadingClipboard,
    Serializing { input: Seq<char>, provider: Seq<char>, model: Seq<char> },
    Posting { input: Seq<char>, provider: Seq<char>, model: Seq<char> },
    WritingClipboard { input: Seq<char>, output: Seq<char> },
    Finished,
}

/// A rewrite: the settings it runs with, the profile's instructions and
/// title, whether it rewrites the clipboard (and then whether it must
/// paste), and where it stands.
pub ghost struct FlowModel {
    pub settings: Settings,
    pub instructions: Seq<char>,
    pub title: Seq<char>,
    pub from_clipboard: bool,
    pub force_paste: bool,
    pub stage: StageView,
}

enum FixStage {
    ReadingClipboard,
    Serializing { input: String, plan: GenerationPlan },
    Posting { input: String, plan: GenerationPlan },
    WritingClipboard { input: String, output: String },
    Finished,
}

spec fn stage_view(s: FixStage) -> StageView {
    match s {
        FixStage::ReadingClipboard => StageView::ReadingClipboard,
        FixStage::Serializing { input, plan } => StageView::Serializing {
            input: input@,
            provider: plan.provider@,
            model: plan.model@,
        },
        FixStage::Posting { input, plan } => StageView::Posting {
            input: input@,
            provider: plan.provider@,
            model: plan.model@,
        },
        FixStage::WritingClipboard { input, output } => StageView::WritingClipboard {
            input: input@,
            output: output@,
        },
        FixStage::Finished => StageView::Finished,
    }
}

/// A rewrite in progress.
pub struct RewriteFlow {
    settings: Settings,
    instructions: String,
    title: String,
    from_clipboard: bool,
    force_paste: bool,
    stage: FixStage,
}

impl View for RewriteFlow {
    type V = FlowModel;

    closed spec fn view(&self) -> FlowModel {
        FlowModel {
            settings: self.settings,
            instructions: self.instructions@,
            title: self.title@,
            from_clipboard: self.from_clipboard,
            force_paste: self.force_paste,
            stage: stage_view(self.stage),
        }
    }
}

pub open spec fn status(stage: Seq<char>, message: Seq<char>) -> EffectView {
    EffectView::Status(stage, message)
}

pub open spec fn finished(m: FlowModel) -> FlowModel {
    FlowModel { stage: StageView::Finished, ..m }
}

/// The request body for a provider and model.
pub open spec fn body_spec(s: Settings, provider: Seq<char>, model: Seq<char>, instructions: Seq<char>, input: Seq<char>) -> Json {
    if provider == "groq"@ {
        groq_body_spec(model, instructions, input, s.temperature_bits, s.max_output_tokens)
    } else {
        gemini_body_spec(model, instructions, input, s.temperature_bits, s.max_output_tokens, s.thinking_level@)
    }
}

pub open spec fn service_name(provider: Seq<char>) -> Seq<char> {
    if provider == "groq"@ {
        "Groq"@
    } else {
        "Gemini"@
    }
}

/// The request carrying `body` to a provider, with the settings' key for it.
pub open spec fn request_spec(s: Settings, provider: Seq<char>, model: Seq<char>, body: Seq<char>) -> RequestView {
    if provider == "groq"@ {
        RequestView {
            host: "api.groq.com"@,
            path: "/openai/v1/chat/completions"@,
            headers: "Content-Type: application/json\r\nAccept: application/json\r\nAuthorization: Bearer "@ + trimmed(s.groq_api_key@) + "\r\n"@,
            body,
            service: "Groq"@,
        }
    } else {
        RequestView {
            host: "generativelanguage.googleapis.com"@,
            path: "/v1beta/models/"@ + model + ":generateContent?key="@ + s.api_key@,
            headers: "Content-Type: application/json\r\nAccept: application/json\r\n"@,
            body,
            service: "Gemini"@,
        }
    }
}

/// The record of a finished rewrite.
pub open spec fn outcome(m: FlowModel, input: Seq<char>, output: Seq<char>) -> TransformResultView {
    TransformResultView {
        input,
        output,
        provider: selected_provider_spec(m.settings),
        model: selected_model_spec(m.settings),
        profile: m.title,
    }
}

/// The start of the generation of a rewrite of `input`: the key is checked,
/// its provider reported, the model checked, and the body built.
pub open spec fn begin_generation(m: FlowModel, input: Seq<char>) -> (FlowModel, Seq<EffectView>) {
    let provider = selected_provider_spec(m.settings);
    let model = selected_model_spec(m.settings);
    match key_error(m.settings) {
        Some(e) => (finished(m), seq![EffectView::Fail(e)]),
        None => {
            let loaded = status("api-key"@, provider + " API key loaded"@);
            match model_id_error(provider, model) {
                Some(e) => (finished(m), seq![loaded, EffectView::Fail(e)]),
                None => (
                    FlowModel { stage: StageView::Serializing { input, provider, model }, ..m },
                    seq![loaded, EffectView::SerializeBody(body_spec(m.settings, provider, model, m.instructions, input))],
                ),
            }
        },
    }
}

/// Whether `e` answers the effect the rewrite is waiting on.
pub open spec fn accepts(m: FlowModel, e: EventView) -> bool {
    match m.stage {
        StageView::ReadingClipboard => e is ClipboardRead,
        StageView::Serializing { .. } => e is BodySerialized,
        StageView::Posting { .. } => e is Replied,
        StageView::WritingClipboard { .. } => e is ClipboardWritten,
        StageView::Finished => false,
    }
}

/// The next state of a rewrite and the effects it asks for, once the
/// effect it waited on has come to `e`.
pub open spec fn step_spec(m: FlowModel, e: EventView) -> (FlowModel, Seq<EffectView>) {
    match m.stage {
        StageView::ReadingClipboard => match e {
            EventView::ClipboardRead(Err(x)) => (finished(m), seq![EffectView::Fail(x)]),
            EventView::ClipboardRead(Ok(input)) => {
                let copied = status("copied"@, "Copied clipboard text"@);
                if is_blank_spec(input) {
                    (finished(m), seq![copied, EffectView::Fail("Clipboard is empty"@)])
                } else {
                    let g = begin_generation(m, input);
                    (g.0, seq![copied] + g.1)
                }
            },
            _ => (m, Seq::empty()),
        },
        StageView::Serializing { input, provider, model } => match e {
            EventView::BodySerialized(body) => (
                FlowModel { stage: StageView::Posting { input, provider, model }, ..m },
                seq![
                    status("sent"@, "Sent request to "@ + service_name(provider)),
                    EffectView::Post(request_spec(m.settings, provider, model, body)),
                ],
            ),
            _ => (m, Seq::empty()),
        },
        StageView::Posting { input, provider, model } => match e {
            EventView::Replied(Err(x)) => (finished(m), seq![EffectView::Fail(x)]),
            EventView::Replied(Ok(bytes)) => if !valid_utf8(bytes) {
                (finished(m), seq![EffectView::Fail(utf8_error_text(bytes))])
            } else {
                let received = status("received"@, "Received "@ + service_name(provider) + " response"@);
                match reply_text_spec(decode_utf8(bytes), provider == "groq"@) {
                    Err(x) => (finished(m), seq![received, EffectView::Fail(x)]),
                    Ok(output) => if m.from_clipboard {
                        (
                            FlowModel { stage: StageView::WritingClipboard { input, output }, ..m },
                            seq![received, EffectView::WriteClipboard(output)],
                        )
                    } else {
                        (finished(m), seq![received, EffectView::Done(outcome(m, input, output))])
                    },
                }
            },
            _ => (m, Seq::empty()),
        },
        StageView::WritingClipboard { input, output } => match e {
            EventView::ClipboardWritten(Err(x)) => (finished(m), seq![EffectView::Fail(x)]),
            EventView::ClipboardWritten(Ok(())) => (
                finished(m),
                (if m.settings.auto_paste || m.force_paste {
                    seq![status("pasting"@, "Pasting result"@), EffectView::Paste]
                } else {
                    Seq::empty()
                }) + seq![status("done"@, "Clipboard updated"@), EffectView::Done(outcome(m, input, output))],
            ),
            _ => (m, Seq::empty()),
        },
        StageView::Finished => (m, Seq::empty()),
    }
}

/// `x` waits on an answer that a rewrite at stage `st` takes.
pub open spec fn awaited_at(x: EffectView, st: StageView) -> bool {
    match x {
        EffectView::ReadClipboard => st is ReadingClipboard,
        EffectView::SerializeBody(_) => st is Serializing,
        EffectView::Post(_) => st is Posting,
        EffectView::WriteClipboard(_) => st is WritingClipboard,
        _ => false,
    }
}

/// `e` is the kind of answer that `x` waits on.
pub open spec fn answers(x: EffectView, e: EventView) -> bool {
    match x {
        EffectView::ReadClipboard => e is ClipboardRead,
        EffectView::SerializeBody(_) => e is BodySerialized,
        EffectView::Post(_) => e is Replied,
        EffectView::WriteClipboard(_) => e is ClipboardWritten,
        _ => false,
    }
}

/// A batch of effects that leaves the rewrite at `m` with something to do:
/// only reports and pastes come before the last effect, and the last one
/// either ends the rewrite (done or failed) or waits on an answer that `m`
/// takes.
pub open spec fn settles(m: FlowModel, effs: Seq<EffectView>) -> bool {
    &&& effs.len() > 0
    &&& forall|i: int| 0 <= i < effs.len() - 1 ==> (#[trigger] effs[i] is Status || effs[i] is Paste)
    &&& ((effs.last() is Done || effs.last() is Fail) && m.stage is Finished) || awaited_at(effs.last(), m.stage)
}

/// `i` is the profile a clipboard rewrite uses: the first whose id is the
/// selected one, else the first profile.
pub open spec fn chosen_profile(ps: Seq<PromptProfile>, selected: Seq<char>, i: int) -> bool {
    &&& 0 <= i < ps.len()
    &&& if exists|j: int| 0 <= j < ps.len() && (#[trigger] ps[j]).id@ == selected {
        ps[i].id@ == selected && forall|j: int| 0 <= j < i ==> (#[trigger] ps[j]).id@ != selected
    } else {
        i == 0
    }
}

/// A clipboard rewrite about to start with these settings and profiles:
/// the profile chosen, and the clipboard still to read.
pub open spec fn fix_start_spec(s: Settings, profiles: Seq<PromptProfile>, force_paste: bool, chosen: int) -> FlowModel {
    FlowModel {
        settings: s,
        instructions: profiles[chosen].instructions@,
        title: profiles[chosen].title@,
        from_clipboard: true,
        force_paste,
        stage: StageView::ReadingClipboard,
    }
}

/// A rewrite of given text about to start.
pub open spec fn transform_start_spec(s: Settings, instructions: Seq<char>, title: Seq<char>, input: Seq<char>) -> (FlowModel, Seq<EffectView>) {
    let m = FlowModel {
        settings: s,
        instructions,
        title,
        from_clipboard: false,
        force_paste: false,
        stage: StageView::Finished,
    };
    let g = begin_generation(m, input);
    (g.0, seq![status("prepared"@, "Prepared draft text"@)] + g.1)
}

fn status_effect(stage: &str, message: String) -> (e: FixEffect)
    ensures
        e@ == status(stage@, message@),
{
    FixEffect::Status(stage.to_owned(), message)
}

fn str_concat(a: &str, b: &str) -> (r: String)
    ensures
        r@ == a@ + b@,
{
    let mut r = a.to_owned();
    r.append(b);
    r
}

impl RewriteFlow {
    /// Starts a rewrite of the clipboard: picks the selected profile (or the
    /// first) and asks for the clipboard, or fails when there is no profile.
    pub fn fix_clipboard(settings: Settings, profiles: &[PromptProfile], force_paste: bool) -> (r: (RewriteFlow, Vec<FixEffect>))
        ensures
            profiles@.len() > 0 ==> exists|i: int| #[trigger] chosen_profile(profiles@, settings.selected_profile@, i)
                && r.0@ == fix_start_spec(settings, profiles@, force_paste, i)
                && effects_view(r.1@) == seq![EffectView::ReadClipboard],
            profiles@.len() == 0 ==> r.0@.stage == StageView::Finished
                && effects_view(r.1@) == seq![EffectView::Fail("no prompt profiles available"@)],
            settles(r.0@, effects_view(r.1@)),
    {
        match select_profile(profiles, settings.selected_profile.as_str()) {
            Ok(i) => {
                assert(chosen_profile(profiles@, settings.selected_profile@, i as int));
                let p = &profiles[i];
                let flow = RewriteFlow {
                    settings,
                    instructions: p.instructions.clone(),
                    title: p.title.clone(),
                    from_clipboard: true,
                    force_paste,
                    stage: FixStage::ReadingClipboard,
                };
                let effects = vec![FixEffect::ReadClipboard];
                assert(effects_view(effects@) =~= seq![EffectView::ReadClipboard]);
                (flow, effects)
            },
            Err(e) => {
                let flow = RewriteFlow {
                    settings,
                    instructions: String::new(),
                    title: String::new(),
                    from_clipboard: true,
                    force_paste,
                    stage: FixStage::Finished,
                };
                let effects = vec![FixEffect::Fail(e)];
                assert(effects_view(effects@) =~= seq![EffectView::Fail("no prompt profiles available"@)]);
                (flow, effects)
            },
        }
    }

    /// Starts a rewrite of `input` with a profile's instructions, as the
    /// window's rewrite does: reports the draft prepared, then begins the
    /// generation.
    pub fn transform(settings: Settings, instructions: String, title: String, input: String) -> (r: (RewriteFlow, Vec<FixEffect>))
        ensures
            (r.0@, effects_view(r.1@)) == transform_start_spec(settings, instructions@, title@, input@),
            settles(r.0@, effects_view(r.1@)),
    {
        let mut flow = RewriteFlow {
            settings,
            instructions,
            title,
            from_clipboard: false,
            force_paste: false,
            stage: FixStage::Finished,
        };
        let mut effects = vec![status_effect("prepared", "Prepared draft text".to_owned())];
        assert(effects_view(effects@) =~= seq![status("prepared"@, "Prepared draft text"@)]);
        flow.begin_generation(input, &mut effects);
        proof {
            lemma_transform_settles(settings, instructions@, title@, input@);
        }
        (flow, effects)
    }

    /// Whether `event` answers the effect the rewrite is waiting on.
    pub fn accepts(&self, event: &FixEvent) -> (b: bool)
        ensures
            b == accepts(self@, event@),
    {
        match (&self.stage, event) {
            (FixStage::ReadingClipboard, FixEvent::ClipboardRead(_)) => true,
            (FixStage::Serializing { .. }, FixEvent::BodySerialized(_)) => true,
            (FixStage::Posting { .. }, FixEvent::Replied(_)) => true,
            (FixStage::WritingClipboard { .. }, FixEvent::ClipboardWritten(_)) => true,
            _ => false,
        }
    }

    fn begin_generation(&mut self, input: String, effects: &mut Vec<FixEffect>)
        ensures
            final(self)@ == begin_generation(old(self)@, input@).0,
            effects_view(final(effects)@) == effects_view(old(effects)@) + begin_generation(old(self)@, input@).1,
    {
        let ghost before = effects_view(effects@);
        let ghost m = self@;
        match check_api_key(&self.settings) {
            Ok(()) => {},
            Err(e) => {
                effects.push(FixEffect::Fail(e));
                self.stage = FixStage::Finished;
                assert(effects_view(effects@) =~= before + begin_generation(m, input@).1);
                return;
            },
        }
        let provider = selected_provider_id(&self.settings);
        let loaded = str_concat(provider.as_str(), " API key loaded");
        effects.push(status_effect("api-key", loaded));
        let plan = match plan_generation(&self.settings) {
            Ok(p) => p,
            Err(e) => {
                effects.push(FixEffect::Fail(e));
                self.stage = FixStage::Finished;
                assert(effects_view(effects@) =~= before + begin_generation(m, input@).1);
                return;
            },
        };
        let body = request_body(&self.settings, &plan, self.instructions.as_str(), input.as_str());
        effects.push(FixEffect::SerializeBody(body));
        self.stage = FixStage::Serializing { input, plan };
        assert(effects_view(effects@) =~= before + begin_generation(m, input@).1);
    }

    /// Takes what came of the effect the rewrite waited on, and gives the
    /// effects to perform next, in order.
    pub fn step(&mut self, event: FixEvent) -> (effects: Vec<FixEffect>)
        requires
            accepts(old(self)@, event@),
        ensures
            (final(self)@, effects_view(effects@)) == step_spec(old(self)@, event@),
            settles(final(self)@, effects_view(effects@)),
    {
        let ghost m = self@;
        let ghost ev = event@;
        proof {
            lemma_step_settles(m, ev);
        }
        let mut stage = FixStage::Finished;
        std::mem::swap(&mut stage, &mut self.stage);
        assert(self@ == finished(m));
        match stage {
            FixStage::ReadingClipboard => {
                match event {
                    FixEvent::ClipboardRead(Err(x)) => {
                        let effects = vec![FixEffect::Fail(x)];
                        assert(effects_view(effects@) =~= step_spec(m, ev).1);
                        effects
                    },
                    FixEvent::ClipboardRead(Ok(input)) => {
                        let mut effects = vec![status_effect("copied", "Copied clipboard text".to_owned())];
                        let ghost start = effects_view(effects@);
                        assert(start =~= seq![status("copied"@, "Copied clipboard text"@)]);
                        match check_clipboard_text(input.as_str()) {
                            Ok(()) => {},
                            Err(e) => {
                                effects.push(FixEffect::Fail(e));
                                assert(effects_view(effects@) =~= step_spec(m, ev).1);
                                return effects;
                            },
                        }
                        self.stage = FixStage::ReadingClipboard;
                        assert(self@ == m);
                        self.begin_generation(input, &mut effects);
                        effects
                    },
                    _ => {
                        assert(false);
                        Vec::new()
                    },
                }
            },
            FixStage::Serializing { input, plan } => {
                match event {
                    FixEvent::BodySerialized(body) => {
                        let request = generation_request(&self.settings, &plan, body);
                        let sent = str_concat("Sent request to ", request.service.as_str());
                        let effects = vec![status_effect("sent", sent), FixEffect::Post(request)];
                        self.stage = FixStage::Posting { input, plan };
                        assert(effects_view(effects@) =~= step_spec(m, ev).1);
                        effects
                    },
                    _ => {
                        assert(false);
                        Vec::new()
                    },
                }
            },
            FixStage::Posting { input, plan } => {
                match event {
                    FixEvent::Replied(Err(x)) => {
                        let effects = vec![FixEffect::Fail(x)];
                        assert(effects_view(effects@) =~= step_spec(m, ev).1);
                        effects
                    },
                    FixEvent::Replied(Ok(bytes)) => {
                        let text = match decode_reply(bytes) {
                            Ok(t) => t,
                            Err(x) => {
                                let effects = vec![FixEffect::Fail(x)];
                                assert(effects_view(effects@) =~= step_spec(m, ev).1);
                                return effects;
                            },
                        };
                        let service = if str_eq(plan.provider.as_str(), "groq") {
                            "Groq"
                        } else {
                            "Gemini"
                        };
                        let mut received = str_concat("Received ", service);
                        received.append(" response");
                        let mut effects = vec![status_effect("received", received)];
                        match extract_generated_text(&plan, text.as_str()) {
                            Err(x) => {
                                effects.push(FixEffect::Fail(x));
                            },
                            Ok(output) => {
                                if self.from_clipboard {
                                    effects.push(FixEffect::WriteClipboard(output.clone()));
                                    self.stage = FixStage::WritingClipboard { input, output };
                                } else {
                                    let done = transform_result(&self.settings, input, output, self.title.clone());
                                    effects.push(FixEffect::Done(done));
                                }
                            },
                        }
                        assert(effects_view(effects@) =~= step_spec(m, ev).1);
                        effects
                    },
                    _ => {
                        assert(false);
                        Vec::new()
                    },
                }
            },
            FixStage::WritingClipboard { input, output } => {
                match event {
                    FixEvent::ClipboardWritten(Err(x)) => {
                        let effects = vec![FixEffect::Fail(x)];
                        assert(effects_view(effects@) =~= step_spec(m, ev).1);
                        effects
                    },
                    FixEvent::ClipboardWritten(Ok(())) => {
                        let mut effects: Vec<FixEffect> = Vec::new();
                        if should_paste(&self.settings, self.force_paste) {
                            effects.push(status_effect("pasting", "Pasting result".to_owned()));
                            effects.push(FixEffect::Paste);
                        }
                        effects.push(status_effect("done", "Clipboard updated".to_owned()));
                        let done = transform_result(&self.settings, input, output, self.title.clone());
                        effects.push(FixEffect::Done(done));
                        assert(effects_view(effects@) =~= step_spec(m, ev).1);
                        effects
                    },
                    _ => {
                        assert(false);
                        Vec::new()
                    },
                }
            },
            FixStage::Finished => {
                assert(false);
                Vec::new()
            },
        }
    }
}

/// What holds of a rewrite once it has passed the checks that come before
/// a request: it goes to the selected provider and model, the key is not
/// blank, the model id is valid, a clipboard rewrite has text to rewrite,
/// and only a clipboard rewrite writes the clipboard, with text that is not
/// blank.
pub open spec fn flow_ok(m: FlowModel) -> bool {
    match m.stage {
        StageView::Serializing { input, provider, model } => request_ok(m, input, provider, model),
        StageView::Posting { input, provider, model } => request_ok(m, input, provider, model),
        StageView::WritingClipboard { input, output } => {
            &&& m.from_clipboard
            &&& !is_blank_spec(input)
            &&& !is_blank_spec(output)
        },
        _ => true,
    }
}

pub open spec fn request_ok(m: FlowModel, input: Seq<char>, provider: Seq<char>, model: Seq<char>) -> bool {
    &&& provider == selected_provider_spec(m.settings)
    &&& model == selected_model_spec(m.settings)
    &&& key_error(m.settings) is None
    &&& model_id_error(provider, model) is None
    &&& m.from_clipboard ==> !is_blank_spec(input)
}

/// Every rewrite starts in a state where the checks hold.
pub proof fn lemma_starts_are_ok(
    s: Settings,
    profiles: Seq<PromptProfile>,
    force_paste: bool,
    chosen: int,
    instructions: Seq<char>,
    title: Seq<char>,
    input: Seq<char>,
)
    ensures
        flow_ok(fix_start_spec(s, profiles, force_paste, chosen)),
        flow_ok(transform_start_spec(s, instructions, title, input).0),
{
}

/// Every step keeps the checks holding.
pub proof fn lemma_step_keeps_flow_ok(m: FlowModel, e: EventView)
    requires
        flow_ok(m),
        accepts(m, e),
    ensures
        flow_ok(step_spec(m, e).0),
{
    match m.stage {
        StageView::Posting { input, provider, model } => match e {
            EventView::Replied(Ok(bytes)) => if valid_utf8(bytes) {
                crate::generation::lemma_reply_text_is_not_blank(decode_utf8(bytes), provider == "groq"@);
            },
            _ => {},
        },
        _ => {},
    }
}

/// What an effect asked for in answer to `e` owes to what came before it.
pub open spec fn effect_ok(m: FlowModel, e: EventView, x: EffectView) -> bool {
    &&& (x matches EffectView::Post(r) ==> {
        &&& m.stage matches StageView::Serializing { input, provider, model }
        &&& request_ok(m, input, provider, model)
        &&& e matches EventView::BodySerialized(body)
        &&& r == request_spec(m.settings, provider, model, body)
    })
    &&& (x matches EffectView::WriteClipboard(t) ==> {
        &&& m.from_clipboard
        &&& m.stage is Posting
        &&& !is_blank_spec(t)
        &&& e matches EventView::Replied(Ok(bytes))
        &&& valid_utf8(bytes)
        &&& reply_text_spec(decode_utf8(bytes), selected_provider_spec(m.settings) == "groq"@) == Ok::<Seq<char>, Seq<char>>(t)
    })
    &&& (x is Paste ==> {
        &&& m.stage is WritingClipboard
        &&& e matches EventView::ClipboardWritten(Ok(_))
        &&& (m.settings.auto_paste || m.force_paste)
    })
}

/// The order of a rewrite, effect by effect: a request is sent only once
/// the key, the model and (for the clipboard) the text have passed their
/// checks, and only to the selected provider; the clipboard is written only
/// with the text read from a reply; and the result is pasted only after the
/// clipboard was written, and only when the settings or the selection fix
/// ask for it.
pub proof fn lemma_effects_follow_checks(m: FlowModel, e: EventView)
    requires
        flow_ok(m),
        accepts(m, e),
    ensures
        forall|i: int| 0 <= i < step_spec(m, e).1.len() ==> effect_ok(m, e, #[trigger] step_spec(m, e).1[i]),
{
    let effs = step_spec(m, e).1;
    match m.stage {
        StageView::Posting { input, provider, model } => match e {
            EventView::Replied(Ok(bytes)) => if valid_utf8(bytes) {
                crate::generation::lemma_reply_text_is_not_blank(decode_utf8(bytes), provider == "groq"@);
            },
            _ => {},
        },
        _ => {},
    }
    assert forall|i: int| 0 <= i < effs.len() implies effect_ok(m, e, #[trigger] effs[i]) by {
        match m.stage {
            StageView::ReadingClipboard => match e {
                EventView::ClipboardRead(Ok(input)) => if !is_blank_spec(input) {
                    let g = begin_generation(m, input);
                    assert(effs == seq![status("copied"@, "Copied clipboard text"@)] + g.1);
                    if i > 0 {
                        assert(effs[i] == g.1[i - 1]);
                    }
                },
                _ => {},
            },
            StageView::WritingClipboard { input, output } => match e {
                EventView::ClipboardWritten(Ok(())) => {
                    let head: Seq<EffectView> = if m.settings.auto_paste || m.force_paste {
                        seq![status("pasting"@, "Pasting result"@), EffectView::Paste]
                    } else {
                        Seq::empty()
                    };
                    let tail = seq![status("done"@, "Clipboard updated"@), EffectView::Done(outcome(m, input, output))];
                    assert(effs == head + tail);
                    if i < head.len() {
                        assert(effs[i] == head[i]);
                    } else {
                        assert(effs[i] == tail[i - head.len()]);
                    }
                },
                _ => {},
            },
            _ => {},
        }
    }
}

proof fn lemma_begin_settles(m: FlowModel, input: Seq<char>)
    ensures
        settles(begin_generation(m, input).0, begin_generation(m, input).1),
{
}

/// A rewrite of given text starts with a batch that settles.
pub proof fn lemma_transform_settles(s: Settings, instructions: Seq<char>, title: Seq<char>, input: Seq<char>)
    ensures
        settles(transform_start_spec(s, instructions, title, input).0, transform_start_spec(s, instructions, title, input).1),
{
    let m = FlowModel {
        settings: s,
        instructions,
        title,
        from_clipboard: false,
        force_paste: false,
        stage: StageView::Finished,
    };
    let g = begin_generation(m, input);
    lemma_begin_settles(m, input);
    let effs = seq![status("prepared"@, "Prepared draft text"@)] + g.1;
    assert(effs.last() == g.1.last());
    assert forall|i: int| 0 <= i < effs.len() - 1 implies (#[trigger] effs[i] is Status || effs[i] is Paste) by {
        if i > 0 {
            assert(effs[i] == g.1[i - 1]);
        }
    }
}

/// Every step of a rewrite, on an answer it takes, gives a batch that
/// settles: the rewrite ends, done or failed, or waits on exactly one
/// answer, which it will take. So a rewrite never stalls.
pub proof fn lemma_step_settles(m: FlowModel, e: EventView)
    requires
        accepts(m, e),
    ensures
        settles(step_spec(m, e).0, step_spec(m, e).1),
{
    let r = step_spec(m, e);
    let effs = r.1;
    match m.stage {
        StageView::ReadingClipboard => match e {
            EventView::ClipboardRead(Ok(input)) => if !is_blank_spec(input) {
                let g = begin_generation(m, input);
                lemma_begin_settles(m, input);
                assert(effs == seq![status("copied"@, "Copied clipboard text"@)] + g.1);
                assert(effs.last() == g.1.last());
                assert forall|i: int| 0 <= i < effs.len() - 1 implies (#[trigger] effs[i] is Status || effs[i] is Paste) by {
                    if i > 0 {
                        assert(effs[i] == g.1[i - 1]);
                    }
                }
            },
            _ => {},
        },
        StageView::WritingClipboard { input, output } => match e {
            EventView::ClipboardWritten(Ok(())) => {
                let head: Seq<EffectView> = if m.settings.auto_paste || m.force_paste {
                    seq![status("pasting"@, "Pasting result"@), EffectView::Paste]
                } else {
                    Seq::empty()
                };
                let tail = seq![status("done"@, "Clipboard updated"@), EffectView::Done(outcome(m, input, output))];
                assert(effs == head + tail);
                assert(effs.last() == tail.last());
                assert forall|i: int| 0 <= i < effs.len() - 1 implies (#[trigger] effs[i] is Status || effs[i] is Paste) by {
                    if i < head.len() {
                        assert(effs[i] == head[i]);
                    } else {
                        assert(effs[i] == tail[i - head.len()]);
                    }
                }
            },
            _ => {},
        },
        _ => {},
    }
}

/// The answer to the effect a rewrite waits on is one it takes.
pub proof fn lemma_answer_is_taken(m: FlowModel, x: EffectView, e: EventView)
    requires
        awaited_at(x, m.stage),
        answers(x, e),
    ensures
        accepts(m, e),
{
}

/// The body asked for carries `input` as the text to rewrite and
/// `instructions` as the instructions, read back out of it.
pub open spec fn carries(m: FlowModel, x: EffectView, input: Seq<char>) -> bool {
    x matches EffectView::SerializeBody(b) ==> {
        let groq = selected_provider_spec(m.settings) == "groq"@;
        &&& sent_text(b, groq) == Some(input)
        &&& sent_instructions(b, groq) == Some(m.instructions)
    }
}

proof fn lemma_body_carries(m: FlowModel, input: Seq<char>)
    ensures
        forall|i: int| 0 <= i < begin_generation(m, input).1.len() ==> carries(m, #[trigger] begin_generation(m, input).1[i], input),
{
    let provider = selected_provider_spec(m.settings);
    let model = selected_model_spec(m.settings);
    let s = m.settings;
    lemma_groq_body_members(model, m.instructions, input, s.temperature_bits, s.max_output_tokens);
    lemma_gemini_body_members(model, m.instructions, input, s.temperature_bits, s.max_output_tokens, s.thinking_level@);
}

/// Once the clipboard is read, the request body asked for carries the
/// clipboard text, and nothing else, as the text to rewrite, with the
/// chosen profile's instructions.
pub proof fn lemma_clipboard_text_is_sent(m: FlowModel, t: Seq<char>)
    requires
        m.stage is ReadingClipboard,
    ensures
        forall|i: int| 0 <= i < step_spec(m, EventView::ClipboardRead(Ok(t))).1.len()
            ==> carries(m, #[trigger] step_spec(m, EventView::ClipboardRead(Ok(t))).1[i], t),
{
    let effs = step_spec(m, EventView::ClipboardRead(Ok(t))).1;
    if !is_blank_spec(t) {
        let g = begin_generation(m, t);
        lemma_body_carries(m, t);
        assert(effs == seq![status("copied"@, "Copied clipboard text"@)] + g.1);
        assert forall|i: int| 0 <= i < effs.len() implies carries(m, #[trigger] effs[i], t) by {
            if i > 0 {
                assert(effs[i] == g.1[i - 1]);
            }
        }
    }
}

/// A rewrite of given text asks for a request body that carries that text,
/// and nothing else, as the text to rewrite, with the given instructions.
pub proof fn lemma_transform_text_is_sent(s: Settings, instructions: Seq<char>, title: Seq<char>, t: Seq<char>)
    ensures
        ({
            let r = transform_start_spec(s, instructions, title, t);
            forall|i: int| 0 <= i < r.1.len() ==> carries(r.0, #[trigger] r.1[i], t)
        }),
{
    let m = FlowModel {
        settings: s,
        instructions,
        title,
        from_clipboard: false,
        force_paste: false,
        stage: StageView::Finished,
    };
    let g = begin_generation(m, t);
    lemma_body_carries(m, t);
    let r = transform_start_spec(s, instructions, title, t);
    assert(r.0.settings == s && r.0.instructions == instructions);
    assert forall|i: int| 0 <= i < r.1.len() implies carries(r.0, #[trigger] r.1[i], t) by {
        if i > 0 {
            assert(r.1[i] == g.1[i - 1]);
            assert(carries(m, g.1[i - 1], t));
        }
    }
}

/// The result of a rewrite, read against what it was asked for: `input` is
/// the text that was rewritten, the output is the text read from the reply
/// `bytes`, and the provider, model and profile are those in use.
pub open spec fn reports(m: FlowModel, x: EffectView, input: Seq<char>, bytes: Seq<u8>) -> bool {
    x matches EffectView::Done(r) ==> {
        &&& r.input == input
        &&& valid_utf8(bytes)
        &&& reply_text_spec(decode_utf8(bytes), selected_provider_spec(m.settings) == "groq"@) == Ok::<Seq<char>, Seq<char>>(r.output)
        &&& r.provider == selected_provider_spec(m.settings)
        &&& r.model == selected_model_spec(m.settings)
        &&& r.profile == m.title
    }
}

/// A rewrite of given text, once its body is sent and its reply read,
/// reports that text as its input and the reply's text as its output.
pub proof fn lemma_transform_reports_its_input(
    s: Settings,
    instructions: Seq<char>,
    title: Seq<char>,
    t: Seq<char>,
    body: Seq<char>,
    bytes: Seq<u8>,
)
    ensures
        ({
            let m1 = transform_start_spec(s, instructions, title, t).0;
            let m2 = step_spec(m1, EventView::BodySerialized(body)).0;
            let effs = step_spec(m2, EventView::Replied(Ok(bytes))).1;
            forall|i: int| 0 <= i < effs.len() ==> reports(m1, #[trigger] effs[i], t, bytes)
        }),
{
    let m1 = transform_start_spec(s, instructions, title, t).0;
    let m2 = step_spec(m1, EventView::BodySerialized(body)).0;
    let effs = step_spec(m2, EventView::Replied(Ok(bytes))).1;
    lemma_starts_are_ok(s, Seq::empty(), false, 0, instructions, title, t);
    assert forall|i: int| 0 <= i < effs.len() implies reports(m1, #[trigger] effs[i], t, bytes) by {
        if m1.stage is Serializing {
            assert(m2.stage is Posting);
        }
    }
}

/// A clipboard rewrite writes the reply's text to the clipboard, and once
/// that is done reports the clipboard text it read as its input and the
/// reply's text as its output.
pub proof fn lemma_clipboard_fix_reports_its_input(
    s: Settings,
    profiles: Seq<PromptProfile>,
    force_paste: bool,
    chosen: int,
    t: Seq<char>,
    body: Seq<char>,
    bytes: Seq<u8>,
)
    ensures
        ({
            let m0 = fix_start_spec(s, profiles, force_paste, chosen);
            let m1 = step_spec(m0, EventView::ClipboardRead(Ok(t))).0;
            let m2 = step_spec(m1, EventView::BodySerialized(body)).0;
            let r3 = step_spec(m2, EventView::Replied(Ok(bytes)));
            let effs = step_spec(r3.0, EventView::ClipboardWritten(Ok(()))).1;
            &&& forall|i: int| 0 <= i < r3.1.len() ==> (#[trigger] r3.1[i] matches EffectView::WriteClipboard(w) ==> {
                &&& valid_utf8(bytes)
                &&& reply_text_spec(decode_utf8(bytes), selected_provider_spec(s) == "groq"@) == Ok::<Seq<char>, Seq<char>>(w)
            })
            &&& forall|i: int| 0 <= i < effs.len() ==> reports(m0, #[trigger] effs[i], t, bytes)
        }),
{
    let m0 = fix_start_spec(s, profiles, force_paste, chosen);
    let m1 = step_spec(m0, EventView::ClipboardRead(Ok(t))).0;
    let m2 = step_spec(m1, EventView::BodySerialized(body)).0;
    let r3 = step_spec(m2, EventView::Replied(Ok(bytes)));
    let effs = step_spec(r3.0, EventView::ClipboardWritten(Ok(()))).1;
    lemma_starts_are_ok(s, profiles, force_paste, chosen, Seq::empty(), Seq::empty(), t);
    lemma_step_keeps_flow_ok(m0, EventView::ClipboardRead(Ok(t)));
    if m1.stage is Serializing {
        assert(m1.stage->Serializing_input == t);
        assert(m2.stage is Posting);
        assert(m2.stage->Posting_input == t);
        if r3.0.stage is WritingClipboard {
            assert(r3.0.stage->WritingClipboard_input == t);
            let head: Seq<EffectView> = if s.auto_paste || force_paste {
                seq![status("pasting"@, "Pasting result"@), EffectView::Paste]
            } else {
                Seq::empty()
            };
            let tail = seq![status("done"@, "Clipboard updated"@), EffectView::Done(outcome(r3.0, t, r3.0.stage->WritingClipboard_output))];
            assert(effs == head + tail);
            assert forall|i: int| 0 <= i < effs.len() implies reports(m0, #[trigger] effs[i], t, bytes) by {
                if i < head.len() {
                    assert(effs[i] == head[i]);
                } else {
                    assert(effs[i] == tail[i - head.len()]);
                }
            }
        }
    }
}

} // verus!
