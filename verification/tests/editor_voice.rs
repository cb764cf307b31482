//! Voice input in the editor.

use instant::Instant;
use voice_sessions::editor_voice::{
    button_look, button_tooltip, first_time_toast, should_show_voice_new_feature_popup,
    voice_options, ButtonColor, ButtonLook, ButtonTooltip, Cursor, EditorAction, EditorEffect,
    EditorView, Icon, InteractionState, TooltipPosition, VoiceAction, VoiceContext,
    VoiceInputState, VoiceToast, VoiceTranscriptionOptions,
};
use voice_sessions::realtime::RealtimeSpeechRecognizer;
use voice_sessions::voice_input::{
    KeyState, MicrophoneAccessState, StartedSession, VoiceInput, VoiceInputToggledFrom,
    VoiceSessionCommand, VoiceSessionError, VoiceSessionEvent,
};

const BUTTON: VoiceInputToggledFrom = VoiceInputToggledFrom::Button;
const PRESS: VoiceInputToggledFrom = VoiceInputToggledFrom::Key { state: KeyState::Pressed };
const RELEASE: VoiceInputToggledFrom = VoiceInputToggledFrom::Key { state: KeyState::Released };

const CONTEXT: VoiceContext = VoiceContext {
    voice_enabled: true,
    voice_input_enabled: true,
    can_request_voice: true,
    microphone_access: MicrophoneAccessState::NotRefused,
    is_udi_enabled: true,
};

const STOP_EFFECTS: [&str; 2] = [
    "SetInteractionState(Editable)",
    "VoiceStateUpdated { is_listening: false, is_transcribing: false }",
];

fn editor() -> EditorView {
    EditorView {
        voice_input_state: VoiceInputState::Stopped,
        voice_transcription_options: VoiceTranscriptionOptions::Enabled { show_button: true },
        focused: true,
        voice_input_key_press_time: None,
        interaction_state: InteractionState::Editable,
        interaction_state_before_voice: None,
        voice_hypothesis_active: false,
        is_ai_input: false,
    }
}

fn idle() -> VoiceInput {
    VoiceInput::new(RealtimeSpeechRecognizer::new().unwrap())
}

fn shown(effects: &[EditorEffect]) -> Vec<String> {
    effects.iter().map(|effect| format!("{effect:?}")).collect()
}

fn toggle(
    view: &mut EditorView,
    input: &mut VoiceInput,
    source: VoiceInputToggledFrom,
    context: VoiceContext,
    held_nanos: Option<u128>,
) -> (Option<StartedSession>, Vec<String>) {
    let mut effects = Vec::new();
    let outcome = view.toggle_at(source, &context, input, Instant::now(), held_nanos, &mut effects);
    (outcome, shown(&effects))
}

fn handle(view: &mut EditorView, event: VoiceSessionEvent) -> Vec<String> {
    let mut effects = Vec::new();
    view.handle_voice_event(event, &CONTEXT, &mut effects);
    shown(&effects)
}

fn edit(edit: &str) -> Vec<String> {
    vec![
        "SetTextInteractionState(Editable)".to_string(),
        format!("Edit({edit})"),
        "SetTextInteractionState(Selectable)".to_string(),
    ]
}

fn listening() -> EditorView {
    let mut view = editor();
    let (started, _) = toggle(&mut view, &mut idle(), BUTTON, CONTEXT, None);
    assert!(started.is_some());
    view
}

#[test]
fn the_button_starts_a_session() {
    let mut view = editor();
    view.focused = false;
    let mut input = idle();
    let (outcome, effects) = toggle(&mut view, &mut input, BUTTON, CONTEXT, None);
    assert!(outcome.is_some());
    assert!(input.is_listening());
    assert!(view.is_voice_input_active());
    assert_eq!(view.interaction_state, InteractionState::Selectable);
    assert_eq!(view.interaction_state_before_voice, Some(InteractionState::Editable));
    assert_eq!(
        effects,
        vec![
            "FocusSelf",
            "SetInteractionState(Selectable)",
            "VoiceStateUpdated { is_listening: true, is_transcribing: false }",
            "SendTelemetry(VoiceInputUsed { action: Start, session_duration_ms: None, is_udi_enabled: true, current_input_mode: Shell })",
            "StreamVoiceEvents",
            "SetUpFirstTimeVoice",
            "Notify",
        ]
    );
}

#[test]
fn the_button_stops_a_session() {
    let mut view = editor();
    let mut input = idle();
    let (started, _) = toggle(&mut view, &mut input, BUTTON, CONTEXT, None);
    let (outcome, effects) = toggle(&mut view, &mut input, BUTTON, CONTEXT, None);
    assert!(outcome.is_none());
    let command = started.unwrap().command_rx.try_recv();
    assert_eq!(command.unwrap(), VoiceSessionCommand::Stop);
    assert!(!view.is_voice_input_active());
    assert!(input.is_listening());
    assert_eq!(view.interaction_state, InteractionState::Editable);
    assert_eq!(
        effects,
        vec!["FocusSelf", STOP_EFFECTS[0], STOP_EFFECTS[1], "Notify", "Notify"]
    );
}

#[test]
fn holding_the_key_listens_while_it_is_held() {
    let mut view = editor();
    view.is_ai_input = true;
    let mut input = idle();
    let (started, effects) = toggle(&mut view, &mut input, PRESS, CONTEXT, None);
    let session = started.unwrap();
    assert_eq!(effects[0], "SetInteractionState(Selectable)");
    assert!(effects[2].contains("current_input_mode: AI"));
    assert!(!effects.contains(&"SetUpFirstTimeVoice".to_string()));
    assert!(view.voice_input_key_press_time.is_some());

    let (early, effects) = toggle(&mut view, &mut input, RELEASE, CONTEXT, Some(149_999_999));
    assert!(early.is_none() && effects.is_empty());
    assert!(session.command_rx.try_recv().is_err());
    assert!(view.is_voice_input_active());
    assert!(view.voice_input_key_press_time.is_some());

    let (late, effects) = toggle(&mut view, &mut input, RELEASE, CONTEXT, Some(150_000_000));
    assert!(late.is_none());
    assert_eq!(session.command_rx.try_recv().unwrap(), VoiceSessionCommand::Stop);
    assert_eq!(effects, vec![STOP_EFFECTS[0], STOP_EFFECTS[1], "Notify", "Notify"]);
    assert!(view.voice_input_key_press_time.is_none());
    assert_eq!(view.interaction_state, InteractionState::Editable);
    assert_eq!(view.interaction_state_before_voice, None);
}

#[test]
fn keys_that_do_not_count_are_ignored() {
    let mut view = editor();
    let mut input = idle();
    assert!(toggle(&mut view, &mut input, RELEASE, CONTEXT, None).1.is_empty());
    view.focused = false;
    assert!(toggle(&mut view, &mut input, PRESS, CONTEXT, None).1.is_empty());
    view.focused = true;
    toggle(&mut view, &mut input, PRESS, CONTEXT, None);
    assert!(toggle(&mut view, &mut input, PRESS, CONTEXT, None).1.is_empty());
    assert!(view.is_voice_input_active());
}

#[test]
fn keys_do_not_stop_a_session_of_the_button() {
    let mut view = editor();
    let mut input = idle();
    toggle(&mut view, &mut input, BUTTON, CONTEXT, None);
    let (outcome, effects) = toggle(&mut view, &mut input, RELEASE, CONTEXT, Some(u128::MAX));
    assert!(outcome.is_none() && effects.is_empty());
    assert!(view.is_voice_input_active());
}

#[test]
fn voice_input_that_is_off_stays_off() {
    for (voice_enabled, voice_input_enabled) in [(false, true), (true, false)] {
        let context = VoiceContext { voice_enabled, voice_input_enabled, ..CONTEXT };
        let mut view = editor();
        let (outcome, effects) = toggle(&mut view, &mut idle(), BUTTON, context, None);
        assert!(outcome.is_none() && effects.is_empty());
    }
    let mut view = editor();
    view.voice_transcription_options = VoiceTranscriptionOptions::Disabled;
    let (outcome, effects) = toggle(&mut view, &mut idle(), BUTTON, CONTEXT, None);
    assert!(outcome.is_none());
    assert_eq!(effects, vec!["FocusSelf"]);
}

#[test]
fn sessions_that_cannot_start_are_explained() {
    let mut view = editor();
    let context = VoiceContext { can_request_voice: false, ..CONTEXT };
    let (_, effects) = toggle(&mut view, &mut idle(), PRESS, context, None);
    assert_eq!(effects, vec!["ShowToast(LimitHit)"]);
    assert!(view.voice_input_key_press_time.is_some());

    let context = VoiceContext { microphone_access: MicrophoneAccessState::Denied, ..CONTEXT };
    let (_, effects) = toggle(&mut editor(), &mut idle(), PRESS, context, None);
    assert_eq!(effects, vec!["ShowToast(MicrophoneAccess)", "Notify"]);

    let mut busy = idle();
    busy.start_listening(BUTTON, MicrophoneAccessState::NotRefused).unwrap();
    let (outcome, effects) = toggle(&mut editor(), &mut busy, PRESS, CONTEXT, None);
    assert!(outcome.is_none());
    assert_eq!(effects, vec!["Notify"]);
}

#[test]
fn the_clock_tells_how_long_the_key_was_held() {
    let mut view = editor();
    let mut input = idle();
    let mut effects = Vec::new();
    let started = view.toggle_voice_input(PRESS, &CONTEXT, &mut input, &mut effects);
    let session = started.unwrap();
    let pressed = view.voice_input_key_press_time.unwrap();
    assert!(pressed.elapsed().as_secs() < 20);
    while pressed.elapsed().as_millis() < 160 {}
    assert!(view.toggle_voice_input(RELEASE, &CONTEXT, &mut input, &mut effects).is_none());
    assert_eq!(session.command_rx.try_recv().unwrap(), VoiceSessionCommand::Stop);
}

#[test]
fn a_quick_release_does_not_stop_the_session() {
    let mut view = editor();
    let mut input = idle();
    let mut effects = Vec::new();
    let started = view.toggle_voice_input(PRESS, &CONTEXT, &mut input, &mut effects);
    view.voice_input_key_press_time = Some(Instant::now());
    assert!(view.toggle_voice_input(RELEASE, &CONTEXT, &mut input, &mut effects).is_none());
    assert!(started.unwrap().command_rx.try_recv().is_err());
    assert!(view.is_voice_input_active());
}

#[test]
fn hypotheses_are_replaced_and_then_committed() {
    let mut view = listening();
    let hypothesis = |text: &str| VoiceSessionEvent::Hypothesis { text: text.to_string() };
    let mut expected = edit("UpdateMarkedText { text: \"héllo\", cursor: 5 }");
    expected.push("Notify".to_string());
    assert_eq!(handle(&mut view, hypothesis("héllo")), expected);
    assert!(view.voice_hypothesis_active);
    assert_eq!(handle(&mut view, hypothesis("")), vec!["Notify"]);
    assert!(view.voice_hypothesis_active);
    let mut expected = edit("CommitMarkedText { text: \"hello\" }");
    expected.push("Notify".to_string());
    let event = VoiceSessionEvent::Final { text: "hello".to_string() };
    assert_eq!(handle(&mut view, event), expected);
    assert!(!view.voice_hypothesis_active);
    assert!(view.is_voice_input_active());
}

#[test]
fn final_texts_without_hypothesis_are_inserted() {
    let mut view = listening();
    let mut expected = edit("InsertText { text: \"hello\" }");
    expected.push("Notify".to_string());
    let event = VoiceSessionEvent::Final { text: "hello".to_string() };
    assert_eq!(handle(&mut view, event), expected);
    let empty = VoiceSessionEvent::Final { text: String::new() };
    assert_eq!(handle(&mut view, empty), vec!["Notify"]);
}

#[test]
fn completed_sessions_drop_the_hypothesis() {
    let mut view = listening();
    view.voice_hypothesis_active = true;
    let mut expected = edit("ClearMarkedText");
    expected.extend(STOP_EFFECTS.map(String::from));
    expected.push("SendTelemetry(VoiceInputUsed { action: Stop, session_duration_ms: Some(9), is_udi_enabled: true, current_input_mode: Shell })".to_string());
    expected.push("Notify".to_string());
    let event = VoiceSessionEvent::Completed { session_duration_ms: 9 };
    assert_eq!(handle(&mut view, event), expected);
    assert!(!view.is_voice_input_active());
    assert!(!view.voice_hypothesis_active);
    assert_eq!(view.interaction_state, InteractionState::Editable);
}

#[test]
fn canceled_sessions_drop_the_hypothesis() {
    let mut view = listening();
    view.voice_hypothesis_active = true;
    let mut expected = edit("ClearMarkedText");
    expected.extend(STOP_EFFECTS.map(String::from));
    expected.push("SendTelemetry(VoiceInputUsed { action: Cancel, session_duration_ms: None, is_udi_enabled: true, current_input_mode: Shell })".to_string());
    expected.push("Notify".to_string());
    let event = VoiceSessionEvent::Canceled { session_duration_ms: None };
    assert_eq!(handle(&mut view, event), expected);
    assert!(!view.voice_hypothesis_active);
}

#[test]
fn failed_sessions_are_explained() {
    for (error, toast) in [
        (VoiceSessionError::SpeechPrivacyPolicyNotAccepted, "ShowToast(SpeechPrivacy)"),
        (VoiceSessionError::Other("e".to_string()), "ShowToast(VoiceError)"),
    ] {
        let mut view = listening();
        view.voice_hypothesis_active = true;
        let mut expected = vec![toast.to_string()];
        expected.extend(edit("ClearMarkedText"));
        expected.extend(STOP_EFFECTS.map(String::from));
        expected.push("Notify".to_string());
        assert_eq!(handle(&mut view, VoiceSessionEvent::Error(error)), expected);
        assert!(!view.is_voice_input_active());
    }
}

#[test]
fn events_do_nothing_where_there_is_no_voice_input() {
    let mut view = listening();
    let mut effects = Vec::new();
    let context = VoiceContext { voice_enabled: false, ..CONTEXT };
    let event = VoiceSessionEvent::Completed { session_duration_ms: 9 };
    view.handle_voice_event(event, &context, &mut effects);
    assert!(effects.is_empty());
    assert!(view.is_voice_input_active());
    view.stop_voice_input(true, &context, &mut idle(), &mut effects);
    assert!(effects.is_empty());
}

#[test]
fn stopping_and_canceling_differ() {
    let mut input = idle();
    let session = input.start_listening(BUTTON, MicrophoneAccessState::NotRefused).unwrap();
    let mut view = listening();
    view.voice_hypothesis_active = true;
    let mut effects = Vec::new();
    view.stop_voice_input(false, &CONTEXT, &mut input, &mut effects);
    assert!(view.voice_hypothesis_active);
    assert_eq!(shown(&effects), vec![STOP_EFFECTS[0], STOP_EFFECTS[1], "Notify"]);
    assert_eq!(session.command_rx.try_recv().unwrap(), VoiceSessionCommand::Stop);

    let mut view = listening();
    view.voice_hypothesis_active = true;
    let mut effects = Vec::new();
    view.stop_voice_input(true, &CONTEXT, &mut input, &mut effects);
    assert_eq!(session.command_rx.try_recv().unwrap(), VoiceSessionCommand::Cancel);
    assert!(!view.voice_hypothesis_active);
    let mut expected = edit("ClearMarkedText");
    expected.extend(STOP_EFFECTS.map(String::from));
    expected.push("Notify".to_string());
    assert_eq!(shown(&effects), expected);
}

#[test]
fn disabling_voice_input_gives_up() {
    let mut input = idle();
    let session = input.start_listening(BUTTON, MicrophoneAccessState::NotRefused).unwrap();
    let mut view = listening();
    let mut effects = Vec::new();
    let enabled = VoiceTranscriptionOptions::Enabled { show_button: false };
    view.update_voice_transcription_options(enabled, &CONTEXT, &mut input, &mut effects);
    assert!(session.command_rx.try_recv().is_err());
    assert_eq!(view.voice_transcription_options, enabled);
    assert_eq!(shown(&effects), vec!["Notify"]);
    assert!(view.is_voice_input_active());

    let mut effects = Vec::new();
    let disabled = VoiceTranscriptionOptions::Disabled;
    view.update_voice_transcription_options(disabled, &CONTEXT, &mut input, &mut effects);
    assert_eq!(session.command_rx.try_recv().unwrap(), VoiceSessionCommand::Cancel);
    assert_eq!(view.voice_transcription_options, disabled);
    assert!(!view.is_voice_input_active());
    assert_eq!(shown(&effects), vec![STOP_EFFECTS[0], STOP_EFFECTS[1], "Notify", "Notify"]);
}

#[test]
fn other_interaction_states_are_restored() {
    let mut view = editor();
    view.interaction_state = InteractionState::Other(3);
    toggle(&mut view, &mut idle(), BUTTON, CONTEXT, None);
    assert_eq!(view.interaction_state, InteractionState::Selectable);
    handle(&mut view, VoiceSessionEvent::Completed { session_duration_ms: 0 });
    assert_eq!(view.interaction_state, InteractionState::Other(3));
}

#[test]
fn icons_show_who_listens() {
    assert_eq!(VoiceInputState::Listening.icon(), Some(Icon::Microphone));
    assert_eq!(VoiceInputState::Stopped.icon(), None);
    assert!(VoiceInputState::Listening.is_active());
    let mut input = idle();
    assert_eq!(
        button_look(&input, false),
        ButtonLook {
            icon: Icon::Microphone,
            active: false,
            color: None,
            tooltip: Some(TooltipPosition::Above),
            cursor: Cursor::PointingHand,
            on_click: EditorAction::ToggleVoiceInput(BUTTON),
        }
    );
    input.start_listening(BUTTON, MicrophoneAccessState::NotRefused).unwrap();
    assert_eq!(
        button_look(&input, true),
        ButtonLook {
            icon: Icon::Stop,
            active: true,
            color: Some(ButtonColor::Red),
            tooltip: None,
            cursor: Cursor::PointingHand,
            on_click: EditorAction::ToggleVoiceInput(BUTTON),
        }
    );
}

#[test]
fn options_follow_the_settings() {
    assert_eq!(voice_options(true), VoiceTranscriptionOptions::Enabled { show_button: false });
    assert_eq!(voice_options(false), VoiceTranscriptionOptions::Disabled);
    assert!(voice_options(true).is_enabled());
    assert!(!voice_options(false).is_enabled());
}

#[test]
fn the_popup_is_shown_for_a_while() {
    let mut input = idle();
    assert!(should_show_voice_new_feature_popup(4, false, false, &input));
    assert!(!should_show_voice_new_feature_popup(5, false, false, &input));
    assert!(!should_show_voice_new_feature_popup(0, true, false, &input));
    assert!(!should_show_voice_new_feature_popup(0, false, true, &input));
    input.should_suppress_new_feature_popup = true;
    assert!(!should_show_voice_new_feature_popup(0, false, false, &input));
}

#[test]
fn hints_name_the_key() {
    let free = MicrophoneAccessState::NotRefused;
    let hint = button_tooltip(free, Some("Alt (LEFT)"));
    assert_eq!(hint.message_key(), "voice-transcription-hold-key");
    assert!(matches!(hint, ButtonTooltip::HoldKey(key) if key == "alt (left)"));
    assert_eq!(button_tooltip(free, None).message_key(), "voice-transcription");
    for access in [MicrophoneAccessState::Denied, MicrophoneAccessState::Restricted] {
        assert_eq!(
            button_tooltip(access, Some("Alt")).message_key(),
            "voice-transcription-disabled-microphone"
        );
    }
}

#[test]
fn messages_have_keys() {
    let toasts = [
        (VoiceToast::LimitHit, "editor-voice-limit-hit-toast", None),
        (
            VoiceToast::MicrophoneAccess,
            "voice-input-microphone-access-error",
            Some("MICROPHONE_ACCESS_ERROR"),
        ),
        (
            VoiceToast::SpeechPrivacy,
            "voice-input-speech-privacy-error",
            Some("SPEECH_PRIVACY_ERROR"),
        ),
        (VoiceToast::VoiceError, "editor-voice-error-toast", None),
    ];
    for (toast, key, id) in toasts {
        assert_eq!(toast.message_key(), key);
        assert_eq!(toast.object_id(), id);
    }
    assert_eq!(VoiceAction::Start.name(), "start");
    assert_eq!(VoiceAction::Stop.name(), "stop");
    assert_eq!(VoiceAction::Cancel.name(), "cancel");
}

#[test]
fn listening_twice_remembers_the_first_state() {
    let mut view = editor();
    let mut effects = Vec::new();
    for _ in 0..3 {
        view.set_voice_input_state(VoiceInputState::Listening, &mut effects);
    }
    assert_eq!(view.interaction_state_before_voice, Some(InteractionState::Editable));
    view.set_voice_input_state(VoiceInputState::Stopped, &mut effects);
    assert_eq!(view.interaction_state, InteractionState::Editable);
    assert_eq!(view.interaction_state_before_voice, None);
    let told = shown(&effects);
    let updates = told.iter().filter(|effect| effect.starts_with("VoiceStateUpdated")).count();
    assert_eq!(updates, 4);
    assert_eq!(told.len(), 6);
}

#[test]
fn the_first_use_is_announced_with_its_key() {
    let toast = first_time_toast(Some("Alt".to_string())).unwrap();
    assert_eq!(toast.key, "Alt");
    assert_eq!(toast.message_key(), "voice-input-enabled-toast");
    assert!(first_time_toast(None).is_none());
}
