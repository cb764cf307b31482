//! Voice input in the editor: what the button and the key do, and how the events of a session
//! become text.
//!
//! The editor is told what to do by a row of effects, which it carries out in order.
use vstd::prelude::*;

#[allow(unused_imports)]
use crate::ranking::views;
use crate::text::to_lowercase;
#[allow(unused_imports)]
use crate::text::lowercased;
use crate::voice_input::{
    clock_now, nanos_since, KeyState, MicrophoneAccessState, StartListeningError, StartedSession,
    VoiceInput, VoiceInputToggledFrom, VoiceSessionError, VoiceSessionEvent,
};
#[allow(unused_imports)]
use crate::voice_input::{
    clock_read, clock_read_since, SessionErrorView, SessionEventView, VoiceSessionCommand,
};

verus! {

/// How many times agent mode can have been entered while the popup that introduces voice input
/// is still shown.
pub const NUM_TIMES_TO_SHOW_VOICE_NEW_FEATURE_POPUP: usize = 4;

/// How long the key has to be held for its release to count, in nanoseconds. The menu loop of
/// Windows releases the Alt key by itself right after it has been pressed.
pub const MIN_KEY_HOLD_NANOS: u128 = 150_000_000;

/// By what the message about the microphone is found again.
pub const MICROPHONE_ACCESS_ERROR_ID: &'static str = "MICROPHONE_ACCESS_ERROR";

/// By what the message about the speech privacy policy is found again.
pub const SPEECH_PRIVACY_ERROR_ID: &'static str = "SPEECH_PRIVACY_ERROR";

/// The key under which the text of the popup that introduces voice input is looked up.
pub const VOICE_POPUP_MESSAGE_KEY: &'static str = "voice-try-input";

/// The name under which the place of the button of voice input is kept.
pub const VOICE_BUTTON_POSITION_ID: &'static str = "voice_transcription_button";

/// Whether the editor listens.
#[derive(Clone, Copy, Debug, PartialEq, Eq, Structural)]
pub enum VoiceInputState {
    Stopped,
    Listening,
}

/// The icons of voice input.
#[derive(Clone, Copy, Debug, PartialEq, Eq, Structural)]
pub enum Icon {
    Microphone,
    Stop,
}

/// Whether the editor offers voice input.
#[derive(Clone, Copy, Debug, PartialEq, Eq, Structural)]
pub enum VoiceTranscriptionOptions {
    Enabled { show_button: bool },
    Disabled,
}

/// What the user can do with the text of the editor.
#[derive(Clone, Copy, Debug, PartialEq, Eq, Structural)]
pub enum InteractionState {
    Editable,
    Selectable,
    /// Another state of the editor, by a number of its own.
    Other(u32),
}

/// To whom the text of the editor goes.
#[derive(Clone, Copy, Debug, PartialEq, Eq, Structural)]
pub enum InputType {
    AI,
    Shell,
}

/// A message that the user sees for a while.
#[derive(Clone, Copy, Debug, PartialEq, Eq, Structural)]
pub enum VoiceToast {
    /// No voice input is left for now.
    LimitHit,
    MicrophoneAccess,
    SpeechPrivacy,
    VoiceError,
}

/// What voice input was used for.
#[derive(Clone, Copy, Debug, PartialEq, Eq, Structural)]
pub enum VoiceAction {
    Start,
    Stop,
    Cancel,
}

/// A record of the use of voice input.
#[derive(Clone, Copy, Debug, PartialEq, Eq, Structural)]
pub struct VoiceInputUsed {
    pub action: VoiceAction,
    pub session_duration_ms: Option<u64>,
    pub is_udi_enabled: bool,
    pub current_input_mode: InputType,
}

/// A change of the editor's text. Text that is not yet final is marked.
#[derive(Debug)]
pub enum VoiceEdit {
    /// The marked text becomes `text`, with the cursor behind that many characters.
    UpdateMarkedText { text: String, cursor: usize },
    /// `text` takes the place of the marked text for good.
    CommitMarkedText { text: String },
    /// `text` is inserted at the cursor.
    InsertText { text: String },
    /// The marked text is taken away.
    ClearMarkedText,
}

/// Something that the editor has to do.
#[derive(Debug)]
pub enum EditorEffect {
    FocusSelf,
    /// The editor has to be drawn again.
    Notify,
    ShowToast(VoiceToast),
    /// The editor as a whole changes what the user can do.
    SetInteractionState(InteractionState),
    /// Its text alone changes what the user can do.
    SetTextInteractionState(InteractionState),
    Edit(VoiceEdit),
    VoiceStateUpdated { is_listening: bool, is_transcribing: bool },
    SendTelemetry(VoiceInputUsed),
    /// The events of the session that was started have to be passed to
    /// [`EditorView::handle_voice_event`].
    StreamVoiceEvents,
    /// Where voice input is used for the first time it is given a key, and the user is told of it
    /// as [`first_time_toast`] says.
    SetUpFirstTimeVoice,
}

/// The model of [`VoiceEdit`].
pub ghost enum EditView {
    UpdateMarkedText(Seq<char>, nat),
    CommitMarkedText(Seq<char>),
    InsertText(Seq<char>),
    ClearMarkedText,
}

/// The model of [`EditorEffect`].
pub ghost enum EffectView {
    FocusSelf,
    Notify,
    ShowToast(VoiceToast),
    SetInteractionState(InteractionState),
    SetTextInteractionState(InteractionState),
    Edit(EditView),
    VoiceStateUpdated { is_listening: bool, is_transcribing: bool },
    SendTelemetry(VoiceInputUsed),
    StreamVoiceEvents,
    SetUpFirstTimeVoice,
}

impl View for VoiceEdit {
    type V = EditView;

    open spec fn view(&self) -> EditView {
        match self {
            VoiceEdit::UpdateMarkedText { text, cursor } => EditView::UpdateMarkedText(
                text@,
                *cursor as nat,
            ),
            VoiceEdit::CommitMarkedText { text } => EditView::CommitMarkedText(text@),
            VoiceEdit::InsertText { text } => EditView::InsertText(text@),
            VoiceEdit::ClearMarkedText => EditView::ClearMarkedText,
        }
    }
}

impl View for EditorEffect {
    type V = EffectView;

    open spec fn view(&self) -> EffectView {
        match self {
            EditorEffect::FocusSelf => EffectView::FocusSelf,
            EditorEffect::Notify => EffectView::Notify,
            EditorEffect::ShowToast(toast) => EffectView::ShowToast(*toast),
            EditorEffect::SetInteractionState(state) => EffectView::SetInteractionState(*state),
            EditorEffect::SetTextInteractionState(state) => EffectView::SetTextInteractionState(
                *state,
            ),
            EditorEffect::Edit(edit) => EffectView::Edit(edit@),
            EditorEffect::VoiceStateUpdated { is_listening, is_transcribing } => {
                EffectView::VoiceStateUpdated {
                    is_listening: *is_listening,
                    is_transcribing: *is_transcribing,
                }
            },
            EditorEffect::SendTelemetry(used) => EffectView::SendTelemetry(*used),
            EditorEffect::StreamVoiceEvents => EffectView::StreamVoiceEvents,
            EditorEffect::SetUpFirstTimeVoice => EffectView::SetUpFirstTimeVoice,
        }
    }
}

/// What the rest of the program says about voice input.
#[derive(Clone, Copy, Debug, PartialEq, Eq, Structural)]
pub struct VoiceContext {
    /// Whether the workspace has voice input at all.
    pub voice_enabled: bool,
    /// Whether the user has switched voice input on.
    pub voice_input_enabled: bool,
    /// Whether there is any voice input left.
    pub can_request_voice: bool,
    pub microphone_access: MicrophoneAccessState,
    pub is_udi_enabled: bool,
}

/// The editor, as far as voice input is concerned.
#[derive(Debug)]
pub struct EditorView {
    pub voice_input_state: VoiceInputState,
    pub voice_transcription_options: VoiceTranscriptionOptions,
    pub focused: bool,
    /// When the key that switches voice input went down.
    pub voice_input_key_press_time: Option<instant::Instant>,
    pub interaction_state: InteractionState,
    /// What the user could do before voice input began.
    pub interaction_state_before_voice: Option<InteractionState>,
    /// Whether the text that was understood so far stands in the editor, marked.
    pub voice_hypothesis_active: bool,
    /// Whether the text of the editor goes to the agent.
    pub is_ai_input: bool,
}

impl VoiceInputState {
    /// Whether the editor listens.
    pub fn is_active(&self) -> (active: bool)
        ensures
            active == (*self is Listening),
    {
        match self {
            VoiceInputState::Listening => true,
            VoiceInputState::Stopped => false,
        }
    }

    /// The icon at the cursor.
    pub fn icon(&self) -> (icon: Option<Icon>)
        ensures
            icon == match *self {
                VoiceInputState::Listening => Some(Icon::Microphone),
                VoiceInputState::Stopped => None,
            },
    {
        match self {
            VoiceInputState::Listening => Some(Icon::Microphone),
            VoiceInputState::Stopped => None,
        }
    }
}

impl VoiceToast {
    /// The key under which the text of the message is looked up.
    pub fn message_key(self) -> (key: &'static str)
        ensures
            key@ == match self {
                VoiceToast::LimitHit => "editor-voice-limit-hit-toast"@,
                VoiceToast::MicrophoneAccess => "voice-input-microphone-access-error"@,
                VoiceToast::SpeechPrivacy => "voice-input-speech-privacy-error"@,
                VoiceToast::VoiceError => "editor-voice-error-toast"@,
            },
    {
        match self {
            VoiceToast::LimitHit => "editor-voice-limit-hit-toast",
            VoiceToast::MicrophoneAccess => "voice-input-microphone-access-error",
            VoiceToast::SpeechPrivacy => "voice-input-speech-privacy-error",
            VoiceToast::VoiceError => "editor-voice-error-toast",
        }
    }

    /// By what the message is found again, where it is to be shown once at a time.
    pub fn object_id(self) -> (id: Option<&'static str>)
        ensures
            match self {
                VoiceToast::MicrophoneAccess => id matches Some(id) && id@
                    == MICROPHONE_ACCESS_ERROR_ID@,
                VoiceToast::SpeechPrivacy => id matches Some(id) && id@
                    == SPEECH_PRIVACY_ERROR_ID@,
                _ => id is None,
            },
    {
        match self {
            VoiceToast::MicrophoneAccess => Some(MICROPHONE_ACCESS_ERROR_ID),
            VoiceToast::SpeechPrivacy => Some(SPEECH_PRIVACY_ERROR_ID),
            VoiceToast::LimitHit | VoiceToast::VoiceError => None,
        }
    }
}

impl VoiceAction {
    /// The name of the action in a record.
    pub fn name(self) -> (name: &'static str)
        ensures
            name@ == match self {
                VoiceAction::Start => "start"@,
                VoiceAction::Stop => "stop"@,
                VoiceAction::Cancel => "cancel"@,
            },
    {
        match self {
            VoiceAction::Start => "start",
            VoiceAction::Stop => "stop",
            VoiceAction::Cancel => "cancel",
        }
    }
}

impl VoiceTranscriptionOptions {
    /// Whether the editor offers voice input.
    pub fn is_enabled(&self) -> (enabled: bool)
        ensures
            enabled == (*self is Enabled),
    {
        match self {
            VoiceTranscriptionOptions::Enabled { .. } => true,
            VoiceTranscriptionOptions::Disabled => false,
        }
    }
}

/// The options for an editor of a user who has voice input switched on, or not.
pub fn voice_options(voice_input_enabled: bool) -> (options: VoiceTranscriptionOptions)
    ensures
        options == if voice_input_enabled {
            VoiceTranscriptionOptions::Enabled { show_button: false }
        } else {
            VoiceTranscriptionOptions::Disabled
        },
{
    if voice_input_enabled {
        VoiceTranscriptionOptions::Enabled { show_button: false }
    } else {
        VoiceTranscriptionOptions::Disabled
    }
}

/// Whether the popup that introduces voice input is shown: not for long, and not to somebody who
/// has dismissed it, has used voice input, or is not to be bothered.
pub fn should_show_voice_new_feature_popup(
    num_times_entered_agent_mode: usize,
    manually_dismissed: bool,
    explicitly_interacted_with_voice: bool,
    voice_input: &VoiceInput,
) -> (show: bool)
    ensures
        show == (num_times_entered_agent_mode <= NUM_TIMES_TO_SHOW_VOICE_NEW_FEATURE_POPUP
            && !manually_dismissed && !explicitly_interacted_with_voice
            && !voice_input.should_suppress_new_feature_popup),
{
    num_times_entered_agent_mode <= NUM_TIMES_TO_SHOW_VOICE_NEW_FEATURE_POPUP && !manually_dismissed
        && !explicitly_interacted_with_voice && !voice_input.should_suppress_new_feature_popup
}

/// The hint at the button of voice input.
#[derive(Debug)]
pub enum ButtonTooltip {
    /// The microphone may not be used.
    DisabledMicrophone,
    Transcription,
    /// The key has to be held.
    HoldKey(String),
}

impl ButtonTooltip {
    /// The key under which the text of the hint is looked up.
    pub fn message_key(&self) -> (key: &'static str)
        ensures
            key@ == match *self {
                ButtonTooltip::DisabledMicrophone => "voice-transcription-disabled-microphone"@,
                ButtonTooltip::Transcription => "voice-transcription"@,
                ButtonTooltip::HoldKey(_) => "voice-transcription-hold-key"@,
            },
    {
        match self {
            ButtonTooltip::DisabledMicrophone => "voice-transcription-disabled-microphone",
            ButtonTooltip::Transcription => "voice-transcription",
            ButtonTooltip::HoldKey(_) => "voice-transcription-hold-key",
        }
    }
}

/// The hint at the button of voice input. `toggle_key` is the name of the key that switches voice
/// input, where there is one.
pub fn button_tooltip(access: MicrophoneAccessState, toggle_key: Option<&str>) -> (tooltip:
    ButtonTooltip)
    ensures
        match tooltip {
            ButtonTooltip::DisabledMicrophone => access.refused(),
            ButtonTooltip::Transcription => !access.refused() && toggle_key is None,
            ButtonTooltip::HoldKey(key) => !access.refused() && toggle_key is Some && key@
                == lowercased(toggle_key->0@),
        },
{
    if access.is_refused() {
        ButtonTooltip::DisabledMicrophone
    } else {
        match toggle_key {
            None => ButtonTooltip::Transcription,
            Some(key) => ButtonTooltip::HoldKey(to_lowercase(key)),
        }
    }
}

/// The message that voice input has been given a key, with the name of the key.
#[derive(Debug)]
pub struct VoiceEnabledToast {
    pub key: String,
}

impl VoiceEnabledToast {
    /// The key under which the text of the message is looked up.
    pub fn message_key(&self) -> (key: &'static str)
        ensures
            key@ == "voice-input-enabled-toast"@,
    {
        "voice-input-enabled-toast"
    }
}

/// The message to a user who has used voice input for the first time. `toggle_key` is the name of
/// the key that voice input has been given, if it has been given one.
pub fn first_time_toast(toggle_key: Option<String>) -> (toast: Option<VoiceEnabledToast>)
    ensures
        toast == match toggle_key {
            Some(key) => Some(VoiceEnabledToast { key }),
            None => None,
        },
{
    match toggle_key {
        Some(key) => Some(VoiceEnabledToast { key }),
        None => None,
    }
}

/// The colours that a button can have in place of its own.
#[derive(Clone, Copy, Debug, PartialEq, Eq, Structural)]
pub enum ButtonColor {
    Red,
}

/// Where a hint stands.
#[derive(Clone, Copy, Debug, PartialEq, Eq, Structural)]
pub enum TooltipPosition {
    Above,
}

/// How the pointer looks over a button.
#[derive(Clone, Copy, Debug, PartialEq, Eq, Structural)]
pub enum Cursor {
    PointingHand,
}

/// What the editor can be told to do.
#[derive(Clone, Copy, Debug, PartialEq, Eq, Structural)]
pub enum EditorAction {
    ToggleVoiceInput(VoiceInputToggledFrom),
}

/// How the button of voice input looks, and what it does.
#[derive(Clone, Copy, Debug, PartialEq, Eq, Structural)]
pub struct ButtonLook {
    pub icon: Icon,
    /// Whether the button is lit up, as it is while somebody listens.
    pub active: bool,
    pub color: Option<ButtonColor>,
    /// Where the hint stands, if there is one.
    pub tooltip: Option<TooltipPosition>,
    pub cursor: Cursor,
    pub on_click: EditorAction,
}

/// How the button of voice input looks, and what it does: it is red while somebody listens, there
/// is no hint at it while the popup is shown, and a click on it switches voice input.
pub fn button_look(voice_input: &VoiceInput, popup_shown: bool) -> (look: ButtonLook)
    ensures
        look == (ButtonLook {
            icon: if voice_input.listening() {
                Icon::Stop
            } else {
                Icon::Microphone
            },
            active: voice_input.listening(),
            color: if voice_input.listening() {
                Some(ButtonColor::Red)
            } else {
                None
            },
            tooltip: if popup_shown {
                None
            } else {
                Some(TooltipPosition::Above)
            },
            cursor: Cursor::PointingHand,
            on_click: EditorAction::ToggleVoiceInput(VoiceInputToggledFrom::Button),
        }),
{
    let active = voice_input.is_listening();
    let (icon, color) = if active {
        (Icon::Stop, Some(ButtonColor::Red))
    } else {
        (Icon::Microphone, None)
    };
    let tooltip = if popup_shown {
        None
    } else {
        Some(TooltipPosition::Above)
    };
    ButtonLook {
        icon,
        active,
        color,
        tooltip,
        cursor: Cursor::PointingHand,
        on_click: EditorAction::ToggleVoiceInput(VoiceInputToggledFrom::Button),
    }
}

/// An edit, made while the text can be edited, after which the user can do what they could
/// before.
pub open spec fn edit_effects(view: EditorView, edit: EditView) -> Seq<EffectView> {
    seq![
        EffectView::SetTextInteractionState(InteractionState::Editable),
        EffectView::Edit(edit),
        EffectView::SetTextInteractionState(view.interaction_state),
    ]
}

/// Adds an effect to the row.
fn emit(effects: &mut Vec<EditorEffect>, effect: EditorEffect)
    ensures
        views(final(effects)@) == views(old(effects)@).push(effect@),
{
    effects.push(effect);
    assert(views(effects@) =~= views(old(effects)@).push(effect@));
}

impl EditorView {
    /// The editor once it listens, or no longer does. While it listens its text can only be
    /// selected.
    pub open spec fn in_state(self, state: VoiceInputState) -> EditorView {
        match (self.voice_input_state, state) {
            (VoiceInputState::Stopped, VoiceInputState::Listening) => EditorView {
                voice_input_state: state,
                interaction_state_before_voice: Some(self.interaction_state),
                interaction_state: InteractionState::Selectable,
                ..self
            },
            (VoiceInputState::Listening, VoiceInputState::Stopped) => EditorView {
                voice_input_state: state,
                interaction_state: match self.interaction_state_before_voice {
                    Some(before) => before,
                    None => self.interaction_state,
                },
                interaction_state_before_voice: None,
                ..self
            },
            _ => self,
        }
    }

    /// What the editor does about it.
    pub open spec fn state_effects(self, state: VoiceInputState) -> Seq<EffectView> {
        let interaction = match (self.voice_input_state, state, self.interaction_state_before_voice) {
            (VoiceInputState::Stopped, VoiceInputState::Listening, _) => seq![
                EffectView::SetInteractionState(InteractionState::Selectable),
            ],
            (VoiceInputState::Listening, VoiceInputState::Stopped, Some(before)) => seq![
                EffectView::SetInteractionState(before),
            ],
            _ => seq![],
        };
        interaction.push(
            EffectView::VoiceStateUpdated {
                is_listening: state is Listening,
                is_transcribing: false,
            },
        )
    }

    /// The editor with the marked text of voice input, or without it.
    pub open spec fn with_hypothesis(self, active: bool) -> EditorView {
        EditorView { voice_hypothesis_active: active, ..self }
    }

    /// Whether the editor listens.
    pub fn is_voice_input_active(&self) -> (active: bool)
        ensures
            active == (self.voice_input_state is Listening),
    {
        self.voice_input_state.is_active()
    }

    /// Makes the editor listen, or no longer listen.
    pub fn set_voice_input_state(
        &mut self,
        state: VoiceInputState,
        effects: &mut Vec<EditorEffect>,
    )
        ensures
            *final(self) == old(self).in_state(state),
            views(final(effects)@) == views(old(effects)@) + old(self).state_effects(state),
    {
        let was_active = self.is_voice_input_active();
        let will_be_active = state.is_active();
        if !was_active && will_be_active {
            self.interaction_state_before_voice = Some(self.interaction_state);
            self.interaction_state = InteractionState::Selectable;
            emit(effects, EditorEffect::SetInteractionState(InteractionState::Selectable));
        } else if was_active && !will_be_active {
            if let Some(before) = self.interaction_state_before_voice {
                self.interaction_state = before;
                emit(effects, EditorEffect::SetInteractionState(before));
            }
            self.interaction_state_before_voice = None;
        }
        self.voice_input_state = state;
        emit(
            effects,
            EditorEffect::VoiceStateUpdated {
                is_listening: will_be_active,
                is_transcribing: false,
            },
        );
        assert(views(effects@) =~= views(old(effects)@) + old(self).state_effects(state));
    }

    /// Makes an edit while the text can be edited.
    fn with_voice_editor_edit(&self, edit: VoiceEdit, effects: &mut Vec<EditorEffect>)
        ensures
            views(final(effects)@) == views(old(effects)@) + edit_effects(*self, edit@),
    {
        emit(effects, EditorEffect::SetTextInteractionState(InteractionState::Editable));
        emit(effects, EditorEffect::Edit(edit));
        emit(effects, EditorEffect::SetTextInteractionState(self.interaction_state));
        assert(views(effects@) =~= views(old(effects)@) + edit_effects(*self, edit@));
    }

    /// What the editor does about a text that has been understood so far.
    pub open spec fn hypothesis_effects(self, text: Seq<char>) -> Seq<EffectView> {
        if text.len() == 0 {
            seq![]
        } else {
            edit_effects(self, EditView::UpdateMarkedText(text, text.len()))
        }
    }

    /// Shows a text that has been understood so far in place of the one before it.
    fn update_voice_hypothesis(&mut self, text: String, effects: &mut Vec<EditorEffect>)
        ensures
            views(final(effects)@) == views(old(effects)@) + old(self).hypothesis_effects(text@),
            *final(self) == old(self).with_hypothesis(
                old(self).voice_hypothesis_active || text@.len() > 0),
    {
        if text.as_str().is_empty() {
            assert(views(effects@) =~= views(old(effects)@) + old(self).hypothesis_effects(text@));
            return;
        }
        let cursor: usize = text.as_str().unicode_len();
        self.with_voice_editor_edit(VoiceEdit::UpdateMarkedText { text, cursor }, effects);
        self.voice_hypothesis_active = true;
    }

    /// What the editor does about a text that has been understood for good.
    pub open spec fn final_effects(self, text: Seq<char>) -> Seq<EffectView> {
        if self.voice_hypothesis_active {
            edit_effects(self, EditView::CommitMarkedText(text))
        } else if text.len() > 0 {
            edit_effects(self, EditView::InsertText(text))
        } else {
            seq![]
        }
    }

    /// Puts in a text that has been understood for good, in place of what had been understood so
    /// far.
    fn commit_voice_text(&mut self, text: String, effects: &mut Vec<EditorEffect>)
        ensures
            views(final(effects)@) == views(old(effects)@) + old(self).final_effects(text@),
            *final(self) == old(self).with_hypothesis(false),
    {
        if self.voice_hypothesis_active {
            self.with_voice_editor_edit(VoiceEdit::CommitMarkedText { text }, effects);
        } else if !text.as_str().is_empty() {
            self.with_voice_editor_edit(VoiceEdit::InsertText { text }, effects);
        } else {
            assert(views(effects@) =~= views(old(effects)@) + old(self).final_effects(text@));
        }
        self.voice_hypothesis_active = false;
    }

    /// What the editor does to take its marked text away, if it has any.
    pub open spec fn clearing_effects(self) -> Seq<EffectView> {
        if self.voice_hypothesis_active {
            edit_effects(self, EditView::ClearMarkedText)
        } else {
            seq![]
        }
    }

    /// Takes away what has been understood so far.
    fn clear_voice_hypothesis(&mut self, effects: &mut Vec<EditorEffect>)
        ensures
            views(final(effects)@) == views(old(effects)@) + old(self).clearing_effects(),
            *final(self) == old(self).with_hypothesis(false),
    {
        if self.voice_hypothesis_active {
            self.with_voice_editor_edit(VoiceEdit::ClearMarkedText, effects);
        } else {
            assert(views(effects@) =~= views(old(effects)@) + seq![]);
        }
        self.voice_hypothesis_active = false;
    }

    /// A record of the use of voice input in this editor.
    pub open spec fn usage(
        self,
        action: VoiceAction,
        session_duration_ms: Option<u64>,
        context: VoiceContext,
    ) -> VoiceInputUsed {
        VoiceInputUsed {
            action,
            session_duration_ms,
            is_udi_enabled: context.is_udi_enabled,
            current_input_mode: if self.is_ai_input {
                InputType::AI
            } else {
                InputType::Shell
            },
        }
    }

    /// A record of the use of voice input in this editor.
    fn voice_input_used(
        &self,
        action: VoiceAction,
        session_duration_ms: Option<u64>,
        context: &VoiceContext,
    ) -> (used: VoiceInputUsed)
        ensures
            used == self.usage(action, session_duration_ms, *context),
    {
        let current_input_mode = if self.is_ai_input {
            InputType::AI
        } else {
            InputType::Shell
        };
        VoiceInputUsed {
            action,
            session_duration_ms,
            is_udi_enabled: context.is_udi_enabled,
            current_input_mode,
        }
    }

    /// The editor once an event of a session has been handled.
    pub open spec fn after_event(self, event: SessionEventView) -> EditorView {
        match event {
            SessionEventView::Hypothesis(text) => self.with_hypothesis(
                self.voice_hypothesis_active || text.len() > 0,
            ),
            SessionEventView::Final(_) => self.with_hypothesis(false),
            _ => self.with_hypothesis(false).in_state(VoiceInputState::Stopped),
        }
    }

    /// What the editor does about an event of a session, but for drawing itself again.
    pub open spec fn event_effects(self, event: SessionEventView, context: VoiceContext) -> Seq<
        EffectView,
    > {
        let stopping = self.state_effects(VoiceInputState::Stopped);
        match event {
            SessionEventView::Hypothesis(text) => self.hypothesis_effects(text),
            SessionEventView::Final(text) => self.final_effects(text),
            SessionEventView::Completed(ms) => {
                self.clearing_effects() + stopping + seq![
                    EffectView::SendTelemetry(self.usage(VoiceAction::Stop, Some(ms), context)),
                ]
            },
            SessionEventView::Canceled(ms) => {
                self.clearing_effects() + stopping + seq![
                    EffectView::SendTelemetry(self.usage(VoiceAction::Cancel, ms, context)),
                ]
            },
            SessionEventView::Error(error) => {
                seq![EffectView::ShowToast(error_toast(error))] + self.clearing_effects()
                    + stopping
            },
        }
    }

    /// Handles an event of a session. What has been understood along the way is a draft: at the
    /// end of the session it is taken away, unless it has been understood for good by then. Where
    /// the workspace has no voice input nothing happens.
    pub fn handle_voice_event(
        &mut self,
        event: VoiceSessionEvent,
        context: &VoiceContext,
        effects: &mut Vec<EditorEffect>,
    )
        ensures
            if context.voice_enabled {
                &&& *final(self) == old(self).after_event(event@)
                &&& views(final(effects)@) == views(old(effects)@) + old(self).event_effects(
                    event@,
                    *context,
                ) + seq![EffectView::Notify]
            } else {
                &&& *final(self) == *old(self)
                &&& final(effects)@ == old(effects)@
            },
    {
        if !context.voice_enabled {
            return;
        }
        let ghost seen = event@;
        let ghost stopping = self.state_effects(VoiceInputState::Stopped);
        assert(self.with_hypothesis(false).state_effects(VoiceInputState::Stopped) == stopping);
        match event {
            VoiceSessionEvent::Hypothesis { text } => {
                self.update_voice_hypothesis(text, effects);
            },
            VoiceSessionEvent::Final { text } => {
                self.commit_voice_text(text, effects);
            },
            VoiceSessionEvent::Completed { session_duration_ms } => {
                self.clear_voice_hypothesis(effects);
                self.set_voice_input_state(VoiceInputState::Stopped, effects);
                let used = self.voice_input_used(
                    VoiceAction::Stop,
                    Some(session_duration_ms),
                    context,
                );
                emit(effects, EditorEffect::SendTelemetry(used));
            },
            VoiceSessionEvent::Canceled { session_duration_ms } => {
                self.clear_voice_hypothesis(effects);
                self.set_voice_input_state(VoiceInputState::Stopped, effects);
                let used = self.voice_input_used(VoiceAction::Cancel, session_duration_ms, context);
                emit(effects, EditorEffect::SendTelemetry(used));
            },
            VoiceSessionEvent::Error(error) => {
                let toast = match error {
                    VoiceSessionError::SpeechPrivacyPolicyNotAccepted => VoiceToast::SpeechPrivacy,
                    VoiceSessionError::Other(_) => VoiceToast::VoiceError,
                };
                emit(effects, EditorEffect::ShowToast(toast));
                self.clear_voice_hypothesis(effects);
                self.set_voice_input_state(VoiceInputState::Stopped, effects);
            },
        }
        assert(views(effects@) =~= views(old(effects)@) + old(self).event_effects(seen, *context));
        let ghost before = views(effects@);
        emit(effects, EditorEffect::Notify);
        assert(before.push(EffectView::Notify) =~= before + seq![EffectView::Notify]);
    }
}

/// What switching voice input comes to, where it is not ignored.
pub ghost enum ToggleCase {
    /// The editor offers no voice input.
    NotOffered,
    /// No voice input is left for now.
    LimitHit,
    /// No session can be started, with the reason.
    Refused(StartListeningError),
    Started,
    Stopped,
}

impl EditorView {
    /// What the editor does when it stops listening. A session that runs is told to end by
    /// whoever stops it.
    pub open spec fn stop_effects(self, cancel: bool) -> Seq<EffectView> {
        let clearing = if cancel {
            self.clearing_effects()
        } else {
            seq![]
        };
        (clearing + self.state_effects(VoiceInputState::Stopped)).push(EffectView::Notify)
    }

    /// The editor once it has stopped listening.
    pub open spec fn stopped(self, cancel: bool) -> EditorView {
        let text = if cancel {
            self.with_hypothesis(false)
        } else {
            self
        };
        text.in_state(VoiceInputState::Stopped)
    }

    /// Stops listening. A session that runs is told to stop, or to give up where `cancel` asks
    /// for it; then what has been understood so far is taken away. Where the workspace has no
    /// voice input nothing happens.
    pub fn stop_voice_input(
        &mut self,
        cancel: bool,
        context: &VoiceContext,
        voice_input: &mut VoiceInput,
        effects: &mut Vec<EditorEffect>,
    )
        requires
            old(voice_input).wf(),
        ensures
            final(voice_input).wf(),
            if context.voice_enabled {
                &&& *final(self) == old(self).stopped(cancel)
                &&& views(final(effects)@) == views(old(effects)@) + old(self).stop_effects(cancel)
                &&& VoiceInput::tells(
                    *old(voice_input),
                    *final(voice_input),
                    if cancel {
                        VoiceSessionCommand::Cancel
                    } else {
                        VoiceSessionCommand::Stop
                    },
                )
            } else {
                &&& *final(self) == *old(self)
                &&& *final(voice_input) == *old(voice_input)
                &&& final(effects)@ == old(effects)@
            },
    {
        if !context.voice_enabled {
            return;
        }
        if cancel {
            voice_input.abort_listening();
        } else {
            let _ = voice_input.stop_listening();
        }
        let ghost start = views(effects@);
        assert(self.with_hypothesis(false).state_effects(VoiceInputState::Stopped)
            == self.state_effects(VoiceInputState::Stopped));
        if cancel {
            self.clear_voice_hypothesis(effects);
        }
        self.set_voice_input_state(VoiceInputState::Stopped, effects);
        emit(effects, EditorEffect::Notify);
        assert(views(effects@) =~= start + old(self).stop_effects(cancel));
    }

    /// Takes in whether the editor offers voice input, and gives up a running session where it no
    /// longer does. Where the workspace has no voice input nothing happens.
    pub fn update_voice_transcription_options(
        &mut self,
        options: VoiceTranscriptionOptions,
        context: &VoiceContext,
        voice_input: &mut VoiceInput,
        effects: &mut Vec<EditorEffect>,
    )
        requires
            old(voice_input).wf(),
        ensures
            final(voice_input).wf(),
            if !context.voice_enabled {
                &&& *final(self) == *old(self)
                &&& *final(voice_input) == *old(voice_input)
                &&& final(effects)@ == old(effects)@
            } else {
                let updated = EditorView { voice_transcription_options: options, ..*old(self) };
                if options is Enabled {
                    &&& *final(self) == updated
                    &&& views(final(effects)@) == views(old(effects)@).push(EffectView::Notify)
                    &&& *final(voice_input) == *old(voice_input)
                } else {
                    &&& *final(self) == updated.stopped(true)
                    &&& views(final(effects)@) == (views(old(effects)@) + updated.stop_effects(
                        true,
                    )).push(EffectView::Notify)
                    &&& VoiceInput::tells(
                        *old(voice_input),
                        *final(voice_input),
                        VoiceSessionCommand::Cancel,
                    )
                }
            },
    {
        if !context.voice_enabled {
            return;
        }
        self.voice_transcription_options = options;
        if !options.is_enabled() {
            self.stop_voice_input(true, context, voice_input, effects);
        }
        emit(effects, EditorEffect::Notify);
    }

    /// Switching voice input is not ignored. `held_nanos` is how long the key has been held,
    /// where that is known.
    ///
    /// The button always counts. The key counts in a focused editor: its press where the editor
    /// does not listen, and its release where it listens to a session that a press began, unless
    /// the key was released too soon.
    pub open spec fn toggle_counts(
        self,
        source: VoiceInputToggledFrom,
        context: VoiceContext,
        voice_input: VoiceInput,
        held_nanos: Option<u128>,
    ) -> bool {
        &&& context.voice_enabled
        &&& context.voice_input_enabled
        &&& match (source, self.voice_input_state) {
            (VoiceInputToggledFrom::Button, _) => true,
            (VoiceInputToggledFrom::Key { state }, VoiceInputState::Stopped) => {
                self.focused && state is Pressed
            },
            (VoiceInputToggledFrom::Key { state }, VoiceInputState::Listening) => {
                &&& self.focused
                &&& state is Released
                &&& voice_input.source() == Some(
                    VoiceInputToggledFrom::Key { state: KeyState::Pressed },
                )
                &&& held_nanos matches Some(held) ==> held >= MIN_KEY_HOLD_NANOS
            },
        }
    }

    /// What switching voice input comes to, where it counts.
    pub open spec fn toggle_case(
        self,
        context: VoiceContext,
        voice_input: VoiceInput,
    ) -> ToggleCase {
        if self.voice_input_state is Listening {
            ToggleCase::Stopped
        } else if self.voice_transcription_options is Disabled {
            ToggleCase::NotOffered
        } else if !context.can_request_voice {
            ToggleCase::LimitHit
        } else {
            match voice_input.start_refused(context.microphone_access) {
                Some(error) => ToggleCase::Refused(error),
                None => ToggleCase::Started,
            }
        }
    }

    /// The editor with the moment noted in which the key went down, or with none once the key has
    /// gone up.
    pub open spec fn key_noted(
        self,
        source: VoiceInputToggledFrom,
        now: instant::Instant,
    ) -> EditorView {
        match (source, self.voice_input_state) {
            (VoiceInputToggledFrom::Button, _) => self,
            (_, VoiceInputState::Stopped) => EditorView {
                voice_input_key_press_time: Some(now),
                ..self
            },
            (_, VoiceInputState::Listening) => EditorView {
                voice_input_key_press_time: None,
                ..self
            },
        }
    }

    /// The editor once voice input has been switched.
    pub open spec fn toggled(
        self,
        source: VoiceInputToggledFrom,
        case: ToggleCase,
        now: instant::Instant,
    ) -> EditorView {
        match case {
            ToggleCase::Started => self.key_noted(source, now).in_state(VoiceInputState::Listening),
            ToggleCase::Stopped => self.key_noted(source, now).in_state(VoiceInputState::Stopped),
            _ => self.key_noted(source, now),
        }
    }

    /// What the editor does when voice input is switched.
    pub open spec fn toggle_effects(
        self,
        source: VoiceInputToggledFrom,
        case: ToggleCase,
        context: VoiceContext,
    ) -> Seq<EffectView> {
        let focus = if source is Button {
            seq![EffectView::FocusSelf]
        } else {
            seq![]
        };
        focus + match case {
            ToggleCase::NotOffered => seq![],
            ToggleCase::LimitHit => seq![EffectView::ShowToast(VoiceToast::LimitHit)],
            ToggleCase::Refused(StartListeningError::AccessDenied) => seq![
                EffectView::ShowToast(VoiceToast::MicrophoneAccess),
                EffectView::Notify,
            ],
            ToggleCase::Refused(_) => seq![EffectView::Notify],
            ToggleCase::Started => {
                self.state_effects(VoiceInputState::Listening) + seq![
                    EffectView::SendTelemetry(self.usage(VoiceAction::Start, None, context)),
                    EffectView::StreamVoiceEvents,
                ] + (if source is Button {
                    seq![EffectView::SetUpFirstTimeVoice]
                } else {
                    seq![]
                }) + seq![EffectView::Notify]
            },
            ToggleCase::Stopped => self.stop_effects(false).push(EffectView::Notify),
        }
    }

    /// `started` and the two states of the editor, of voice input and of the effects are what
    /// switching voice input at `now` comes to.
    pub open spec fn toggles(
        before: EditorView,
        after: EditorView,
        source: VoiceInputToggledFrom,
        context: VoiceContext,
        input_before: VoiceInput,
        input_after: VoiceInput,
        effects_before: Seq<EffectView>,
        effects_after: Seq<EffectView>,
        now: instant::Instant,
        held_nanos: Option<u128>,
        started: Option<StartedSession>,
    ) -> bool {
        let case = before.toggle_case(context, input_before);
        let counts = before.toggle_counts(source, context, input_before, held_nanos);
        if !counts {
            &&& after == before
            &&& input_after == input_before
            &&& effects_after == effects_before
            &&& started is None
        } else {
            &&& after == before.toggled(source, case, now)
            &&& effects_after == effects_before + before.toggle_effects(source, case, context)
            &&& match started {
                Some(session) => {
                    &&& case is Started
                    &&& input_after.listens_to(session, source)
                    &&& input_after.should_suppress_new_feature_popup
                        == input_before.should_suppress_new_feature_popup
                    &&& input_after.recognizer == input_before.recognizer
                },
                None => match case {
                    ToggleCase::Started => false,
                    ToggleCase::Stopped => VoiceInput::tells(
                        input_before,
                        input_after,
                        VoiceSessionCommand::Stop,
                    ),
                    _ => input_after == input_before,
                },
            }
        }
    }

    /// Switches voice input by the button or by the key, given the present moment and how long
    /// the key has been held. A session that is started is given back, and the caller runs it.
    pub fn toggle_at(
        &mut self,
        source: VoiceInputToggledFrom,
        context: &VoiceContext,
        voice_input: &mut VoiceInput,
        now: instant::Instant,
        held_nanos: Option<u128>,
        effects: &mut Vec<EditorEffect>,
    ) -> (started: Option<StartedSession>)
        requires
            old(voice_input).wf(),
        ensures
            final(voice_input).wf(),
            EditorView::toggles(
                *old(self),
                *final(self),
                source,
                *context,
                *old(voice_input),
                *final(voice_input),
                views(old(effects)@),
                views(final(effects)@),
                now,
                held_nanos,
                started,
            ),
    {
        if !context.voice_enabled || !context.voice_input_enabled {
            return None;
        }
        let ghost before = *self;
        let ghost start = views(effects@);
        match source {
            VoiceInputToggledFrom::Button => {
                emit(effects, EditorEffect::FocusSelf);
            },
            VoiceInputToggledFrom::Key { state } => {
                if !self.focused {
                    return None;
                }
                match self.voice_input_state {
                    VoiceInputState::Stopped => {
                        if let KeyState::Released = state {
                            return None;
                        }
                        self.voice_input_key_press_time = Some(now);
                    },
                    VoiceInputState::Listening => {
                        if let KeyState::Pressed = state {
                            return None;
                        }
                        if !voice_input.started_from_key_press() {
                            return None;
                        }
                        if let Some(held) = held_nanos {
                            if held < MIN_KEY_HOLD_NANOS {
                                return None;
                            }
                        }
                        self.voice_input_key_press_time = None;
                    },
                }
            },
        }
        let ghost case = before.toggle_case(*context, *voice_input);
        assert(*self == before.key_noted(source, now));
        assert(self.state_effects(VoiceInputState::Listening) == before.state_effects(
            VoiceInputState::Listening,
        ));
        assert(self.stop_effects(false) == before.stop_effects(false));
        match self.voice_input_state {
            VoiceInputState::Stopped => {
                if !self.voice_transcription_options.is_enabled() {
                    assert(views(effects@) =~= start + before.toggle_effects(
                        source,
                        case,
                        *context,
                    ));
                    return None;
                }
                if !context.can_request_voice {
                    emit(effects, EditorEffect::ShowToast(VoiceToast::LimitHit));
                    assert(views(effects@) =~= start + before.toggle_effects(
                        source,
                        case,
                        *context,
                    ));
                    return None;
                }
                match voice_input.start_listening(source, context.microphone_access) {
                    Err(error) => {
                        if let StartListeningError::AccessDenied = error {
                            emit(effects, EditorEffect::ShowToast(VoiceToast::MicrophoneAccess));
                        }
                        emit(effects, EditorEffect::Notify);
                        assert(views(effects@) =~= start + before.toggle_effects(
                            source,
                            case,
                            *context,
                        ));
                        None
                    },
                    Ok(session) => {
                        self.set_voice_input_state(VoiceInputState::Listening, effects);
                        let used = self.voice_input_used(VoiceAction::Start, None, context);
                        emit(effects, EditorEffect::SendTelemetry(used));
                        emit(effects, EditorEffect::StreamVoiceEvents);
                        if let VoiceInputToggledFrom::Button = source {
                            emit(effects, EditorEffect::SetUpFirstTimeVoice);
                        }
                        emit(effects, EditorEffect::Notify);
                        assert(views(effects@) =~= start + before.toggle_effects(
                            source,
                            case,
                            *context,
                        ));
                        Some(session)
                    },
                }
            },
            VoiceInputState::Listening => {
                self.stop_voice_input(false, context, voice_input, effects);
                emit(effects, EditorEffect::Notify);
                assert(views(effects@) =~= start + before.toggle_effects(source, case, *context));
                None
            },
        }
    }

    /// Switches voice input by the button or by the key. A session that is started is given back,
    /// and the caller runs it.
    pub fn toggle_voice_input(
        &mut self,
        source: VoiceInputToggledFrom,
        context: &VoiceContext,
        voice_input: &mut VoiceInput,
        effects: &mut Vec<EditorEffect>,
    ) -> (started: Option<StartedSession>)
        requires
            old(voice_input).wf(),
        ensures
            final(voice_input).wf(),
            exists|now: instant::Instant, held_nanos: Option<u128>|
                {
                    &&& clock_read(now)
                    &&& match old(self).voice_input_key_press_time {
                        Some(pressed) => held_nanos matches Some(held) && clock_read_since(
                            pressed,
                            held,
                        ),
                        None => held_nanos is None,
                    }
                    &&& #[trigger] EditorView::toggles(
                        *old(self),
                        *final(self),
                        source,
                        *context,
                        *old(voice_input),
                        *final(voice_input),
                        views(old(effects)@),
                        views(final(effects)@),
                        now,
                        held_nanos,
                        started,
                    )
                },
    {
        let now = clock_now();
        let held_nanos: Option<u128> = match &self.voice_input_key_press_time {
            Some(pressed) => Some(nanos_since(pressed)),
            None => None,
        };
        self.toggle_at(source, context, voice_input, now, held_nanos, effects)
    }
}

/// The message about an error of a session.
pub open spec fn error_toast(error: SessionErrorView) -> VoiceToast {
    match error {
        SessionErrorView::SpeechPrivacyPolicyNotAccepted => VoiceToast::SpeechPrivacy,
        SessionErrorView::Other(_) => VoiceToast::VoiceError,
    }
}

impl EditorView {
    /// What the editor remembers fits together: while it listens its text can only be selected,
    /// and it knows what the user could do before; otherwise there is nothing to remember.
    pub open spec fn consistent(self) -> bool {
        match self.voice_input_state {
            VoiceInputState::Stopped => self.interaction_state_before_voice is None,
            VoiceInputState::Listening => {
                &&& self.interaction_state_before_voice is Some
                &&& self.interaction_state is Selectable
            },
        }
    }
}

/// Listening and no longer listening leaves the editor as it was.
pub proof fn interaction_is_restored(view: EditorView)
    requires
        view.consistent(),
        view.voice_input_state is Stopped,
    ensures
        view.in_state(VoiceInputState::Listening).in_state(VoiceInputState::Stopped) == view,
{
}

/// The editor once it has been told `n` times to listen.
pub open spec fn listening_times(view: EditorView, n: nat) -> EditorView
    decreases n,
{
    if n == 0 {
        view
    } else {
        listening_times(view, (n - 1) as nat).in_state(VoiceInputState::Listening)
    }
}

/// However often the editor is told to listen, what the user could do before is remembered from
/// the first time, and is back once the editor no longer listens.
pub proof fn repeated_listening_is_restored(view: EditorView, n: nat)
    requires
        n > 0,
        view.voice_input_state is Stopped,
    ensures
        ({
            let listening = listening_times(view, n);
            let stopped = listening.in_state(VoiceInputState::Stopped);
            &&& listening.voice_input_state is Listening
            &&& listening.interaction_state is Selectable
            &&& listening.interaction_state_before_voice == Some(view.interaction_state)
            &&& stopped.voice_input_state is Stopped
            &&& stopped.interaction_state == view.interaction_state
            &&& stopped.interaction_state_before_voice is None
        }),
    decreases n,
{
    reveal_with_fuel(listening_times, 2);
    if n > 1 {
        repeated_listening_is_restored(view, (n - 1) as nat);
    }
}

/// Whenever the editor is told to listen, or no longer to listen, this is made known once, and
/// last; nothing is ever said to be transcribed.
pub proof fn state_changes_are_told_once(view: EditorView, state: VoiceInputState)
    ensures
        view.state_effects(state).len() > 0,
        view.state_effects(state).last() == (EffectView::VoiceStateUpdated {
            is_listening: state is Listening,
            is_transcribing: false,
        }),
        forall|i: int|
            0 <= i < view.state_effects(state).len() - 1 ==> (#[trigger] view.state_effects(
                state,
            )[i]) !is VoiceStateUpdated,
{
}

/// Whatever happens, what the editor remembers fits together.
pub proof fn editors_stay_consistent(
    view: EditorView,
    event: SessionEventView,
    cancel: bool,
    source: VoiceInputToggledFrom,
    context: VoiceContext,
    voice_input: VoiceInput,
    now: instant::Instant,
)
    requires
        view.consistent(),
    ensures
        view.after_event(event).consistent(),
        view.stopped(cancel).consistent(),
        view.toggled(source, view.toggle_case(context, voice_input), now).consistent(),
{
}

/// A key that is released too soon does not stop the session that its press began.
pub proof fn short_releases_are_ignored(
    view: EditorView,
    context: VoiceContext,
    voice_input: VoiceInput,
    held: u128,
)
    requires
        held < MIN_KEY_HOLD_NANOS,
    ensures
        !view.toggle_counts(
            VoiceInputToggledFrom::Key { state: KeyState::Released },
            context,
            voice_input,
            Some(held),
        ),
{
}

/// Switching voice input where it does not count changes nothing, starts no session and tells the
/// running one nothing.
pub proof fn ignored_switches_change_nothing(
    before: EditorView,
    after: EditorView,
    source: VoiceInputToggledFrom,
    context: VoiceContext,
    input_before: VoiceInput,
    input_after: VoiceInput,
    effects_before: Seq<EffectView>,
    effects_after: Seq<EffectView>,
    now: instant::Instant,
    held_nanos: Option<u128>,
    started: Option<StartedSession>,
)
    requires
        EditorView::toggles(
            before,
            after,
            source,
            context,
            input_before,
            input_after,
            effects_before,
            effects_after,
            now,
            held_nanos,
            started,
        ),
        !before.toggle_counts(source, context, input_before, held_nanos),
    ensures
        after == before,
        input_after == input_before,
        input_after.told() == input_before.told(),
        effects_after == effects_before,
        started is None,
{
}

/// Releasing the key that began a session tells the session nothing where the key was held too
/// shortly, and tells it to stop, and nothing else, where it was held long enough.
pub proof fn releases_tell_the_session_to_stop(
    before: EditorView,
    after: EditorView,
    context: VoiceContext,
    input_before: VoiceInput,
    input_after: VoiceInput,
    effects_before: Seq<EffectView>,
    effects_after: Seq<EffectView>,
    now: instant::Instant,
    held: u128,
    started: Option<StartedSession>,
)
    requires
        EditorView::toggles(
            before,
            after,
            VoiceInputToggledFrom::Key { state: KeyState::Released },
            context,
            input_before,
            input_after,
            effects_before,
            effects_after,
            now,
            Some(held),
            started,
        ),
        context.voice_enabled,
        context.voice_input_enabled,
        before.focused,
        before.voice_input_state is Listening,
        input_before.source() == Some(VoiceInputToggledFrom::Key { state: KeyState::Pressed }),
    ensures
        started is None,
        held < MIN_KEY_HOLD_NANOS ==> {
            &&& after == before
            &&& input_after == input_before
            &&& input_after.told() == input_before.told()
        },
        held >= MIN_KEY_HOLD_NANOS ==> {
            &&& after.voice_input_state is Stopped
            &&& after.voice_input_key_press_time is None
            &&& input_after.told() == input_before.told().push(VoiceSessionCommand::Stop)
        },
{
}

/// The key does nothing about a session that the button began.
pub proof fn keys_leave_button_sessions_alone(
    view: EditorView,
    state: KeyState,
    context: VoiceContext,
    voice_input: VoiceInput,
    held_nanos: Option<u128>,
)
    requires
        view.voice_input_state is Listening,
        voice_input.source() == Some(VoiceInputToggledFrom::Button),
    ensures
        !view.toggle_counts(
            VoiceInputToggledFrom::Key { state },
            context,
            voice_input,
            held_nanos,
        ),
{
}

/// Holding the key: where its press starts a session, its release stops the session once the key
/// has been held long enough, and then the editor is as it was.
pub proof fn holding_the_key_listens(
    view: EditorView,
    context: VoiceContext,
    input_before: VoiceInput,
    input_after: VoiceInput,
    pressed: instant::Instant,
    released: instant::Instant,
    held: u128,
)
    requires
        view.consistent(),
        view.voice_input_state is Stopped,
        view.voice_input_key_press_time is None,
        view.toggle_counts(
            VoiceInputToggledFrom::Key { state: KeyState::Pressed },
            context,
            input_before,
            None,
        ),
        view.toggle_case(context, input_before) is Started,
        input_after.source() == Some(VoiceInputToggledFrom::Key { state: KeyState::Pressed }),
        held >= MIN_KEY_HOLD_NANOS,
    ensures
        ({
            let press = VoiceInputToggledFrom::Key { state: KeyState::Pressed };
            let release = VoiceInputToggledFrom::Key { state: KeyState::Released };
            let listening = view.toggled(press, ToggleCase::Started, pressed);
            &&& listening.voice_input_state is Listening
            &&& listening.voice_input_key_press_time == Some(pressed)
            &&& listening.toggle_counts(release, context, input_after, Some(held))
            &&& listening.toggle_case(context, input_after) is Stopped
            &&& listening.toggled(release, ToggleCase::Stopped, released) == view
        }),
{
}

/// What the editor has to do is seen as it is.
pub proof fn effects_are_seen_whole(effect: EditorEffect, edit: VoiceEdit)
    ensures
        match effect {
            EditorEffect::FocusSelf => effect@ is FocusSelf,
            EditorEffect::Notify => effect@ is Notify,
            EditorEffect::ShowToast(toast) => effect@ == EffectView::ShowToast(toast),
            EditorEffect::SetInteractionState(state) => effect@ == EffectView::SetInteractionState(
                state,
            ),
            EditorEffect::SetTextInteractionState(state) => effect@
                == EffectView::SetTextInteractionState(state),
            EditorEffect::Edit(change) => effect@ == EffectView::Edit(change@),
            EditorEffect::VoiceStateUpdated { is_listening, is_transcribing } => {
                &&& effect@ is VoiceStateUpdated
                &&& effect@->is_listening == is_listening
                &&& effect@->is_transcribing == is_transcribing
            },
            EditorEffect::SendTelemetry(used) => effect@ == EffectView::SendTelemetry(used),
            EditorEffect::StreamVoiceEvents => effect@ is StreamVoiceEvents,
            EditorEffect::SetUpFirstTimeVoice => effect@ is SetUpFirstTimeVoice,
        },
        match edit {
            VoiceEdit::UpdateMarkedText { text, cursor } => edit@ == EditView::UpdateMarkedText(
                text@,
                cursor as nat,
            ),
            VoiceEdit::CommitMarkedText { text } => edit@ == EditView::CommitMarkedText(text@),
            VoiceEdit::InsertText { text } => edit@ == EditView::InsertText(text@),
            VoiceEdit::ClearMarkedText => edit@ is ClearMarkedText,
        },
{
}

/// Listening or no longer listening changes what the user can do and nothing else of the editor.
pub proof fn listening_changes_what_the_user_can_do(view: EditorView, state: VoiceInputState)
    ensures
        ({
            let after = view.in_state(state);
            &&& after.voice_input_state == state
            &&& after.voice_transcription_options == view.voice_transcription_options
            &&& after.focused == view.focused
            &&& after.voice_input_key_press_time == view.voice_input_key_press_time
            &&& after.voice_hypothesis_active == view.voice_hypothesis_active
            &&& after.is_ai_input == view.is_ai_input
            &&& view.voice_input_state == state ==> after == view
            &&& view.voice_input_state is Stopped && state is Listening ==> {
                &&& after.interaction_state is Selectable
                &&& after.interaction_state_before_voice == Some(view.interaction_state)
            }
            &&& view.voice_input_state is Listening && state is Stopped ==> {
                &&& after.interaction_state_before_voice is None
                &&& view.interaction_state_before_voice matches Some(before)
                    ==> after.interaction_state == before
                &&& view.interaction_state_before_voice is None ==> after.interaction_state
                    == view.interaction_state
            }
        }),
{
}

/// The editor as a whole is told what the user can do exactly where listening changes that, and
/// before it is made known whether the editor listens.
pub proof fn interaction_is_told_where_it_changes(view: EditorView, state: VoiceInputState)
    ensures
        ({
            let effects = view.state_effects(state);
            let told = EffectView::VoiceStateUpdated {
                is_listening: state is Listening,
                is_transcribing: false,
            };
            &&& view.voice_input_state is Stopped && state is Listening ==> effects == seq![
                EffectView::SetInteractionState(InteractionState::Selectable),
                told,
            ]
            &&& view.voice_input_state is Listening && state is Stopped
                && view.interaction_state_before_voice is Some ==> effects == seq![
                EffectView::SetInteractionState(view.interaction_state_before_voice->0),
                told,
            ]
            &&& view.voice_input_state is Listening && state is Stopped
                && view.interaction_state_before_voice is None ==> effects == seq![told]
            &&& view.voice_input_state == state ==> effects == seq![told]
        }),
{
}

/// What is understood is written while the text can be edited, with what the user can do put back
/// afterwards: what is understood so far as marked text with the cursor behind it, and what is
/// understood for good in place of the marked text, or at the cursor where there is none. A text
/// without characters changes nothing but for taking the place of marked text.
pub proof fn what_is_understood_is_written(
    view: EditorView,
    text: Seq<char>,
    context: VoiceContext,
)
    ensures
        ({
            let hypothesis = SessionEventView::Hypothesis(text);
            let for_good = SessionEventView::Final(text);
            let open = EffectView::SetTextInteractionState(InteractionState::Editable);
            let close = EffectView::SetTextInteractionState(view.interaction_state);
            let marking = EffectView::Edit(EditView::UpdateMarkedText(text, text.len()));
            let committing = EffectView::Edit(EditView::CommitMarkedText(text));
            let inserting = EffectView::Edit(EditView::InsertText(text));
            &&& text.len() > 0 ==> view.event_effects(hypothesis, context) == seq![
                open,
                marking,
                close,
            ]
            &&& text.len() == 0 ==> view.event_effects(hypothesis, context).len() == 0
            &&& view.voice_hypothesis_active ==> view.event_effects(for_good, context) == seq![
                open,
                committing,
                close,
            ]
            &&& !view.voice_hypothesis_active && text.len() > 0 ==> view.event_effects(
                for_good,
                context,
            ) == seq![open, inserting, close]
            &&& !view.voice_hypothesis_active && text.len() == 0 ==> view.event_effects(
                for_good,
                context,
            ).len() == 0
        }),
{
}

/// What is understood changes nothing of the editor but whether marked text stands there.
pub proof fn what_is_understood_is_remembered(view: EditorView, text: Seq<char>)
    ensures
        ({
            let hypothesis = view.after_event(SessionEventView::Hypothesis(text));
            let for_good = view.after_event(SessionEventView::Final(text));
            &&& text.len() > 0 ==> hypothesis.voice_hypothesis_active
            &&& text.len() == 0 ==> hypothesis == view
            &&& !for_good.voice_hypothesis_active
            &&& (EditorView {
                voice_hypothesis_active: view.voice_hypothesis_active,
                ..hypothesis
            }) == view
            &&& (EditorView {
                voice_hypothesis_active: view.voice_hypothesis_active,
                ..for_good
            }) == view
        }),
{
}

/// However a session ends, the editor no longer listens, has no marked text, and is otherwise as
/// it would be had it merely been told not to listen.
pub proof fn ended_sessions_leave_the_editor(view: EditorView, event: SessionEventView)
    requires
        event is Completed || event is Canceled || event is Error,
    ensures
        ({
            let after = view.after_event(event);
            &&& after.voice_input_state is Stopped
            &&& !after.voice_hypothesis_active
            &&& after.interaction_state_before_voice == (if view.voice_input_state is Listening {
                None
            } else {
                view.interaction_state_before_voice
            })
            &&& after.interaction_state == (if view.voice_input_state is Listening
                && view.interaction_state_before_voice is Some {
                view.interaction_state_before_voice->0
            } else {
                view.interaction_state
            })
            &&& after.voice_transcription_options == view.voice_transcription_options
            &&& after.focused == view.focused
            &&& after.voice_input_key_press_time == view.voice_input_key_press_time
            &&& after.is_ai_input == view.is_ai_input
        }),
{
}

/// The end of a session takes marked text away while the text can be edited, makes known that the
/// editor no longer listens, and is recorded with how long the session lasted: as a stop where it
/// completed, and as a cancellation where it was canceled. An error is shown first, and is not
/// recorded.
pub proof fn ended_sessions_are_recorded(
    view: EditorView,
    event: SessionEventView,
    context: VoiceContext,
)
    requires
        event is Completed || event is Canceled || event is Error,
    ensures
        ({
            let effects = view.event_effects(event, context);
            let clearing = if view.voice_hypothesis_active {
                seq![
                    EffectView::SetTextInteractionState(InteractionState::Editable),
                    EffectView::Edit(EditView::ClearMarkedText),
                    EffectView::SetTextInteractionState(view.interaction_state),
                ]
            } else {
                seq![]
            };
            let restoring = if view.voice_input_state is Listening
                && view.interaction_state_before_voice is Some {
                seq![EffectView::SetInteractionState(view.interaction_state_before_voice->0)]
            } else {
                seq![]
            };
            let told = seq![
                EffectView::VoiceStateUpdated { is_listening: false, is_transcribing: false },
            ];
            let mode = if view.is_ai_input {
                InputType::AI
            } else {
                InputType::Shell
            };
            match event {
                SessionEventView::Completed(ms) => {
                    &&& effects.drop_last() == clearing + restoring + told
                    &&& effects.last() matches EffectView::SendTelemetry(used)
                    &&& used.action is Stop
                    &&& used.session_duration_ms == Some(ms)
                    &&& used.is_udi_enabled == context.is_udi_enabled
                    &&& used.current_input_mode == mode
                },
                SessionEventView::Canceled(ms) => {
                    &&& effects.drop_last() == clearing + restoring + told
                    &&& effects.last() matches EffectView::SendTelemetry(used)
                    &&& used.action is Cancel
                    &&& used.session_duration_ms == ms
                    &&& used.is_udi_enabled == context.is_udi_enabled
                    &&& used.current_input_mode == mode
                },
                SessionEventView::Error(error) => {
                    let toast = if error is SpeechPrivacyPolicyNotAccepted {
                        VoiceToast::SpeechPrivacy
                    } else {
                        VoiceToast::VoiceError
                    };
                    effects == seq![EffectView::ShowToast(toast)] + clearing + restoring + told
                },
                _ => true,
            }
        }),
{
    let effects = view.event_effects(event, context);
    let stopping = view.clearing_effects() + view.state_effects(VoiceInputState::Stopped);
    if !(event is Error) {
        assert(effects.drop_last() =~= stopping);
    }
}

/// Stopping an editor by hand keeps its marked text, which what is understood for good replaces
/// later; giving up takes it away. Either way the editor no longer listens and is drawn again.
pub proof fn stopping_keeps_the_draft(view: EditorView, cancel: bool)
    ensures
        ({
            let after = view.stopped(cancel);
            let effects = view.stop_effects(cancel);
            let clearing = if cancel && view.voice_hypothesis_active {
                seq![
                    EffectView::SetTextInteractionState(InteractionState::Editable),
                    EffectView::Edit(EditView::ClearMarkedText),
                    EffectView::SetTextInteractionState(view.interaction_state),
                ]
            } else {
                seq![]
            };
            let restoring = if view.voice_input_state is Listening
                && view.interaction_state_before_voice is Some {
                seq![EffectView::SetInteractionState(view.interaction_state_before_voice->0)]
            } else {
                seq![]
            };
            &&& after.voice_input_state is Stopped
            &&& after.voice_hypothesis_active == (view.voice_hypothesis_active && !cancel)
            &&& after.interaction_state == (if view.voice_input_state is Listening
                && view.interaction_state_before_voice is Some {
                view.interaction_state_before_voice->0
            } else {
                view.interaction_state
            })
            &&& view.voice_input_state is Listening ==> after.interaction_state_before_voice is None
            &&& view.voice_input_state is Stopped ==> after.interaction_state_before_voice
                == view.interaction_state_before_voice
            &&& after.voice_transcription_options == view.voice_transcription_options
            &&& after.focused == view.focused
            &&& after.voice_input_key_press_time == view.voice_input_key_press_time
            &&& after.is_ai_input == view.is_ai_input
            &&& effects == clearing + restoring + seq![
                EffectView::VoiceStateUpdated { is_listening: false, is_transcribing: false },
                EffectView::Notify,
            ]
        }),
{
}

/// Switching voice input counts nowhere but where the workspace and the user have it switched on.
/// There the button always counts, and the key counts in a focused editor: going down where the
/// editor does not listen, and going up where it listens to a session that the key began and was
/// not released within 150 milliseconds.
pub proof fn switches_count_where_they_ought_to(
    view: EditorView,
    context: VoiceContext,
    voice_input: VoiceInput,
    held_nanos: Option<u128>,
)
    ensures
        ({
            let on = context.voice_enabled && context.voice_input_enabled;
            let press = VoiceInputToggledFrom::Key { state: KeyState::Pressed };
            let release = VoiceInputToggledFrom::Key { state: KeyState::Released };
            let long_enough = held_nanos is None || held_nanos->0 >= 150_000_000;
            &&& view.toggle_counts(VoiceInputToggledFrom::Button, context, voice_input, held_nanos)
                <==> on
            &&& view.toggle_counts(press, context, voice_input, held_nanos) <==> on && view.focused
                && view.voice_input_state is Stopped
            &&& view.toggle_counts(release, context, voice_input, held_nanos) <==> on
                && view.focused && view.voice_input_state is Listening && long_enough
                && voice_input.source() == Some(press)
        }),
{
}

/// A press of the key or the button starts a session where the editor offers voice input, some of
/// it is left, nobody listens yet and the microphone may be used. The session began at the moment
/// it says, the editor listens to it and is told so in this order: focus where the button was
/// used, what the user can do, that it listens, the record, the events to pass on, what is set up
/// the first time where the button was used, and drawing it again.
pub proof fn switching_on_starts_a_session(
    before: EditorView,
    after: EditorView,
    source: VoiceInputToggledFrom,
    context: VoiceContext,
    input_before: VoiceInput,
    input_after: VoiceInput,
    effects_before: Seq<EffectView>,
    effects_after: Seq<EffectView>,
    now: instant::Instant,
    held_nanos: Option<u128>,
    started: Option<StartedSession>,
)
    requires
        EditorView::toggles(
            before,
            after,
            source,
            context,
            input_before,
            input_after,
            effects_before,
            effects_after,
            now,
            held_nanos,
            started,
        ),
        context.voice_enabled,
        context.voice_input_enabled,
        context.can_request_voice,
        !(context.microphone_access is Denied),
        !(context.microphone_access is Restricted),
        before.voice_input_state is Stopped,
        before.voice_transcription_options is Enabled,
        !input_before.listening(),
        source is Button || (before.focused && source == (VoiceInputToggledFrom::Key {
            state: KeyState::Pressed,
        })),
    ensures
        ({
            let mode = if before.is_ai_input {
                InputType::AI
            } else {
                InputType::Shell
            };
            let focus = if source is Button {
                seq![EffectView::FocusSelf]
            } else {
                seq![]
            };
            let first_time = if source is Button {
                seq![EffectView::SetUpFirstTimeVoice]
            } else {
                seq![]
            };
            let record = VoiceInputUsed {
                action: VoiceAction::Start,
                session_duration_ms: None,
                is_udi_enabled: context.is_udi_enabled,
                current_input_mode: mode,
            };
            &&& started is Some
            &&& input_after.listens_to(started->0, source)
            &&& input_after.should_suppress_new_feature_popup
                == input_before.should_suppress_new_feature_popup
            &&& input_after.recognizer == input_before.recognizer
            &&& after.voice_input_state is Listening
            &&& after.interaction_state is Selectable
            &&& after.interaction_state_before_voice == Some(before.interaction_state)
            &&& after.voice_input_key_press_time == (if source is Button {
                before.voice_input_key_press_time
            } else {
                Some(now)
            })
            &&& after.voice_transcription_options == before.voice_transcription_options
            &&& after.focused == before.focused
            &&& after.voice_hypothesis_active == before.voice_hypothesis_active
            &&& after.is_ai_input == before.is_ai_input
            &&& effects_after == effects_before + focus + seq![
                EffectView::SetInteractionState(InteractionState::Selectable),
                EffectView::VoiceStateUpdated { is_listening: true, is_transcribing: false },
                EffectView::SendTelemetry(record),
                EffectView::StreamVoiceEvents,
            ] + first_time + seq![EffectView::Notify]
        }),
{
}

/// Where no session can be started the editor goes on not listening, voice input is left alone,
/// and the user is told why: that no voice input is left, or that the microphone may not be used.
/// Nothing is said where the editor offers no voice input, or where somebody listens already.
pub proof fn refused_switches_are_explained(
    before: EditorView,
    after: EditorView,
    source: VoiceInputToggledFrom,
    context: VoiceContext,
    input_before: VoiceInput,
    input_after: VoiceInput,
    effects_before: Seq<EffectView>,
    effects_after: Seq<EffectView>,
    now: instant::Instant,
    held_nanos: Option<u128>,
    started: Option<StartedSession>,
)
    requires
        EditorView::toggles(
            before,
            after,
            source,
            context,
            input_before,
            input_after,
            effects_before,
            effects_after,
            now,
            held_nanos,
            started,
        ),
        context.voice_enabled,
        context.voice_input_enabled,
        before.voice_input_state is Stopped,
        source is Button || (before.focused && source == (VoiceInputToggledFrom::Key {
            state: KeyState::Pressed,
        })),
        before.voice_transcription_options is Disabled || !context.can_request_voice
            || input_before.listening() || context.microphone_access is Denied
            || context.microphone_access is Restricted,
    ensures
        ({
            let focus = if source is Button {
                seq![EffectView::FocusSelf]
            } else {
                seq![]
            };
            let said = if before.voice_transcription_options is Disabled {
                seq![]
            } else if !context.can_request_voice {
                seq![EffectView::ShowToast(VoiceToast::LimitHit)]
            } else if input_before.listening() {
                seq![EffectView::Notify]
            } else {
                seq![EffectView::ShowToast(VoiceToast::MicrophoneAccess), EffectView::Notify]
            };
            &&& started is None
            &&& input_after == input_before
            &&& effects_after == effects_before + focus + said
            &&& after.voice_input_key_press_time == (if source is Button {
                before.voice_input_key_press_time
            } else {
                Some(now)
            })
            &&& (EditorView {
                voice_input_key_press_time: before.voice_input_key_press_time,
                ..after
            }) == before
        }),
{
}

/// The button stops an editor that listens, and so does the key that began to listen once it has
/// been held long enough: the session is told to stop and nothing else, marked text stays, and
/// the user can do what they could before.
pub proof fn switching_off_stops_the_session(
    before: EditorView,
    after: EditorView,
    source: VoiceInputToggledFrom,
    context: VoiceContext,
    input_before: VoiceInput,
    input_after: VoiceInput,
    effects_before: Seq<EffectView>,
    effects_after: Seq<EffectView>,
    now: instant::Instant,
    held_nanos: Option<u128>,
    started: Option<StartedSession>,
)
    requires
        EditorView::toggles(
            before,
            after,
            source,
            context,
            input_before,
            input_after,
            effects_before,
            effects_after,
            now,
            held_nanos,
            started,
        ),
        context.voice_enabled,
        context.voice_input_enabled,
        before.voice_input_state is Listening,
        source is Button || {
            &&& before.focused
            &&& source == (VoiceInputToggledFrom::Key { state: KeyState::Released })
            &&& input_before.source() == Some(
                VoiceInputToggledFrom::Key { state: KeyState::Pressed },
            )
            &&& held_nanos is None || held_nanos->0 >= 150_000_000
        },
    ensures
        ({
            let focus = if source is Button {
                seq![EffectView::FocusSelf]
            } else {
                seq![]
            };
            let restoring = if before.interaction_state_before_voice is Some {
                seq![EffectView::SetInteractionState(before.interaction_state_before_voice->0)]
            } else {
                seq![]
            };
            &&& started is None
            &&& input_before.listening() ==> {
                &&& input_after.listening()
                &&& input_after.told() == input_before.told().push(VoiceSessionCommand::Stop)
                &&& input_after.source() == input_before.source()
            }
            &&& !input_before.listening() ==> input_after == input_before
            &&& effects_after == effects_before + focus + restoring + seq![
                EffectView::VoiceStateUpdated { is_listening: false, is_transcribing: false },
                EffectView::Notify,
                EffectView::Notify,
            ]
            &&& after.voice_input_state is Stopped
            &&& after.interaction_state_before_voice is None
            &&& after.interaction_state == (match before.interaction_state_before_voice {
                Some(state) => state,
                None => before.interaction_state,
            })
            &&& after.voice_input_key_press_time == (if source is Button {
                before.voice_input_key_press_time
            } else {
                None
            })
            &&& after.voice_hypothesis_active == before.voice_hypothesis_active
            &&& after.voice_transcription_options == before.voice_transcription_options
            &&& after.focused == before.focused
            &&& after.is_ai_input == before.is_ai_input
        }),
{
}

/// The text around the cursor: what stands there for good, and what is marked behind it.
pub ghost struct Draft {
    pub committed: Seq<char>,
    pub marked: Seq<char>,
}

impl Draft {
    /// The text once an edit has been made.
    pub open spec fn edited(self, edit: EditView) -> Draft {
        match edit {
            EditView::UpdateMarkedText(text, _) => Draft { marked: text, ..self },
            EditView::CommitMarkedText(text) => Draft {
                committed: self.committed + text,
                marked: seq![],
            },
            EditView::InsertText(text) => Draft { committed: self.committed + text, ..self },
            EditView::ClearMarkedText => Draft { marked: seq![], ..self },
        }
    }

    /// The text once the editor has carried out a row of effects.
    pub open spec fn after_effects(self, effects: Seq<EffectView>) -> Draft
        decreases effects.len(),
    {
        if effects.len() == 0 {
            self
        } else {
            let before = self.after_effects(effects.drop_last());
            match effects.last() {
                EffectView::Edit(edit) => before.edited(edit),
                _ => before,
            }
        }
    }

    /// The text that a session's event ought to leave: what has been understood so far replaces
    /// what was understood before it, what has been understood for good takes its place, and at
    /// the end of the session what has not been understood for good is gone.
    pub open spec fn after_event(self, event: SessionEventView) -> Draft {
        match event {
            SessionEventView::Hypothesis(text) => if text.len() > 0 {
                Draft { marked: text, ..self }
            } else {
                self
            },
            SessionEventView::Final(text) => Draft {
                committed: self.committed + text,
                marked: seq![],
            },
            _ => Draft { marked: seq![], ..self },
        }
    }
}

/// Effects that are no edits leave the text as it is.
proof fn other_effects_edit_nothing(draft: Draft, effects: Seq<EffectView>, more: Seq<EffectView>)
    requires
        forall|i: int| 0 <= i < more.len() ==> (#[trigger] more[i]) !is Edit,
    ensures
        draft.after_effects(effects + more) == draft.after_effects(effects),
    decreases more.len(),
{
    if more.len() > 0 {
        other_effects_edit_nothing(draft, effects, more.drop_last());
        assert((effects + more).drop_last() =~= effects + more.drop_last());
        assert((effects + more).last() == more.last());
        assert(more[more.len() - 1] !is Edit);
    } else {
        assert(effects + more =~= effects);
    }
}

/// An edit that the editor makes changes the text by that edit alone.
proof fn edit_effects_edit_once(draft: Draft, view: EditorView, edit: EditView)
    ensures
        draft.after_effects(edit_effects(view, edit)) == draft.edited(edit),
{
    let effects = edit_effects(view, edit);
    reveal_with_fuel(Draft::after_effects, 4);
    assert(effects.drop_last().last() == EffectView::Edit(edit));
    assert(effects.drop_last().drop_last().last() is SetTextInteractionState);
}

/// The events of a session leave the text that they ought to leave: what is understood along the
/// way is replaced and never piles up, and it is gone once the session is at its end. The editor
/// knows all along whether any of it stands there.
pub proof fn events_leave_the_text_they_ought_to(
    view: EditorView,
    draft: Draft,
    event: SessionEventView,
    context: VoiceContext,
)
    requires
        view.voice_hypothesis_active == (draft.marked.len() > 0),
    ensures
        draft.after_effects(view.event_effects(event, context)) == draft.after_event(event),
        view.after_event(event).voice_hypothesis_active == (draft.after_event(event).marked.len()
            > 0),
{
    let none = Seq::<EffectView>::empty();
    let stopping = view.state_effects(VoiceInputState::Stopped);
    assert(draft.after_effects(none) == draft);
    assert(forall|i: int| 0 <= i < stopping.len() ==> (#[trigger] stopping[i]) !is Edit);
    match event {
        SessionEventView::Hypothesis(text) => {
            edit_effects_edit_once(draft, view, EditView::UpdateMarkedText(text, text.len()));
        },
        SessionEventView::Final(text) => {
            edit_effects_edit_once(draft, view, EditView::CommitMarkedText(text));
            edit_effects_edit_once(draft, view, EditView::InsertText(text));
            assert(draft.committed + Seq::<char>::empty() =~= draft.committed);
            assert(text.len() == 0 ==> text =~= Seq::<char>::empty());
            assert(!view.voice_hypothesis_active ==> draft.marked =~= Seq::<char>::empty());
        },
        SessionEventView::Completed(ms) => {
            let edits = view.clearing_effects();
            let record = seq![
                EffectView::SendTelemetry(view.usage(VoiceAction::Stop, Some(ms), context)),
            ];
            edit_effects_edit_once(draft, view, EditView::ClearMarkedText);
            other_effects_edit_nothing(draft, edits, stopping);
            other_effects_edit_nothing(draft, edits + stopping, record);
            assert(!view.voice_hypothesis_active ==> draft.marked =~= Seq::<char>::empty());
        },
        SessionEventView::Canceled(ms) => {
            let edits = view.clearing_effects();
            let record = seq![
                EffectView::SendTelemetry(view.usage(VoiceAction::Cancel, ms, context)),
            ];
            edit_effects_edit_once(draft, view, EditView::ClearMarkedText);
            other_effects_edit_nothing(draft, edits, stopping);
            other_effects_edit_nothing(draft, edits + stopping, record);
            assert(!view.voice_hypothesis_active ==> draft.marked =~= Seq::<char>::empty());
        },
        SessionEventView::Error(error) => {
            let edits = view.clearing_effects();
            let toast = seq![EffectView::ShowToast(error_toast(error))];
            edit_effects_follow(draft, view, toast, EditView::ClearMarkedText);
            other_effects_edit_nothing(draft, none, toast);
            assert(none + toast =~= toast);
            assert(toast + none =~= toast);
            other_effects_edit_nothing(draft, toast + edits, stopping);
            assert(!view.voice_hypothesis_active ==> draft.marked =~= Seq::<char>::empty());
        },
    }
}

/// An edit behind effects that are none changes the text by that edit alone.
proof fn edit_effects_follow(draft: Draft, view: EditorView, ahead: Seq<EffectView>, edit: EditView)
    requires
        forall|i: int| 0 <= i < ahead.len() ==> (#[trigger] ahead[i]) !is Edit,
    ensures
        draft.after_effects(ahead + edit_effects(view, edit)) == draft.edited(edit),
{
    let none = Seq::<EffectView>::empty();
    let effects = ahead + edit_effects(view, edit);
    other_effects_edit_nothing(draft, none, ahead);
    assert(none + ahead =~= ahead);
    reveal_with_fuel(Draft::after_effects, 4);
    assert(effects.last() is SetTextInteractionState);
    assert(effects.drop_last().last() == EffectView::Edit(edit));
    assert(effects.drop_last().drop_last().last() is SetTextInteractionState);
    assert(effects.drop_last().drop_last().drop_last() =~= ahead);
}

/// Only what has been understood for good is put into the text to stay.
pub proof fn only_final_texts_are_committed(draft: Draft, event: SessionEventView)
    ensures
        draft.after_event(event).committed == match event {
            SessionEventView::Final(text) => draft.committed + text,
            _ => draft.committed,
        },
{
}

/// However often what is understood changes along the way, the text that is understood for good
/// is inserted once and nothing else is.
pub proof fn hypotheses_do_not_pile_up(draft: Draft, along_the_way: Seq<Seq<char>>, text: Seq<char>)
    ensures
        hypotheses(draft, along_the_way).after_event(SessionEventView::Final(text)) == (Draft {
            committed: draft.committed + text,
            marked: seq![],
        }),
    decreases along_the_way.len(),
{
    if along_the_way.len() > 0 {
        hypotheses_do_not_pile_up(draft, along_the_way.drop_last(), text);
        assert(hypotheses(draft, along_the_way).committed == hypotheses(
            draft,
            along_the_way.drop_last(),
        ).committed);
    }
}

/// The text once a row of hypotheses has come in.
pub open spec fn hypotheses(draft: Draft, along_the_way: Seq<Seq<char>>) -> Draft
    decreases along_the_way.len(),
{
    if along_the_way.len() == 0 {
        draft
    } else {
        hypotheses(draft, along_the_way.drop_last()).after_event(
            SessionEventView::Hypothesis(along_the_way.last()),
        )
    }
}

} // verus!
