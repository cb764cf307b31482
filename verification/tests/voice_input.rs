//! Voice input and its sessions.

use voice_sessions::error::Error;
use voice_sessions::realtime::{RealtimeSpeechEvent, RealtimeSpeechRecognizer, SessionControl};
use voice_sessions::voice_input::{
    delivered, forward_realtime_event, run_session, session_step, CommandDelivery, CommandRefusal,
    KeyState, MicrophoneAccessState, SessionInput, SessionOutput, SessionPhase,
    StartListeningError, VoiceInput, VoiceInputState, VoiceInputToggledFrom, VoiceSessionCommand,
    VoiceSessionError, VoiceSessionEvent,
};

const PRESSED: VoiceInputToggledFrom = VoiceInputToggledFrom::Key { state: KeyState::Pressed };

fn idle() -> VoiceInput {
    VoiceInput::new(RealtimeSpeechRecognizer::new().unwrap())
}

#[test]
fn voice_input_begins_idle() {
    let mut input = idle();
    assert!(!input.is_listening());
    assert!(!input.is_active());
    assert!(!input.should_suppress_new_feature_popup);
    assert!(matches!(input.state(), VoiceInputState::Idle));
    assert!(input.stop_listening().is_ok());
    input.abort_listening();
    assert_eq!(input.send_command(VoiceSessionCommand::Stop), CommandDelivery::NotListening);
    assert!(matches!(input.state(), VoiceInputState::Idle));
}

#[test]
fn only_one_session_runs() {
    let mut input = idle();
    let session = input.start_listening(PRESSED, MicrophoneAccessState::NotRefused).unwrap();
    assert!(input.is_listening());
    assert!(input.is_active());
    assert!(input.started_from_key_press());
    assert!(matches!(
        input.state(),
        VoiceInputState::Listening { session_start, .. } if *session_start == session.session_start
    ));
    let again = input.start_listening(PRESSED, MicrophoneAccessState::Denied);
    assert!(matches!(again, Err(StartListeningError::AlreadyRunning)));
    input.session_ended();
    assert!(!input.is_listening());
    assert!(!input.started_from_key_press());
    let button = VoiceInputToggledFrom::Button;
    assert!(input.start_listening(button, MicrophoneAccessState::NotRefused).is_ok());
    assert!(!input.started_from_key_press());
}

#[test]
fn the_microphone_has_to_be_free() {
    for access in [MicrophoneAccessState::Denied, MicrophoneAccessState::Restricted] {
        let mut input = idle();
        let refused = input.start_listening(VoiceInputToggledFrom::Button, access);
        assert!(matches!(refused, Err(StartListeningError::AccessDenied)));
        assert!(!input.is_listening());
        assert!(access.is_refused());
    }
    assert!(!MicrophoneAccessState::NotRefused.is_refused());
}

#[test]
fn start_errors_read_well() {
    assert_eq!(StartListeningError::AlreadyRunning.to_text(), "Voice input is already running");
    assert_eq!(StartListeningError::AccessDenied.to_text(), "Microphone access denied");
    assert_eq!(StartListeningError::Other("x".to_string()).to_text(), "x");
}

#[test]
fn commands_reach_the_session_one_at_a_time() {
    let mut input = idle();
    let session = input.start_listening(PRESSED, MicrophoneAccessState::NotRefused).unwrap();
    let (stop, cancel) = (VoiceSessionCommand::Stop, VoiceSessionCommand::Cancel);
    assert_eq!(input.send_command(stop), CommandDelivery::Sent(stop));
    assert_eq!(input.send_command(cancel), CommandDelivery::Refused(cancel));
    assert_eq!(session.command_rx.try_recv().unwrap(), stop);
    assert_eq!(input.send_command(cancel), CommandDelivery::Sent(cancel));
    assert_eq!(session.command_rx.try_recv().unwrap(), cancel);
    drop(session);
    assert_eq!(input.send_command(stop), CommandDelivery::Refused(stop));
    assert!(input.stop_listening().is_ok());
}

#[test]
fn a_stop_behind_a_pending_abort_is_dropped() {
    let mut input = idle();
    let session = input.start_listening(PRESSED, MicrophoneAccessState::NotRefused).unwrap();
    input.abort_listening();
    assert!(input.stop_listening().is_ok());
    assert!(input.is_listening());
    assert_eq!(session.command_rx.try_recv().unwrap(), VoiceSessionCommand::Cancel);
    assert!(session.command_rx.try_recv().is_err());
    assert!(input.stop_listening().is_ok());
    input.abort_listening();
    assert_eq!(session.command_rx.try_recv().unwrap(), VoiceSessionCommand::Stop);
    assert!(session.command_rx.try_recv().is_err());
}

#[test]
fn events_are_cloned_whole() {
    let events = [
        VoiceSessionEvent::Hypothesis { text: "h".to_string() },
        VoiceSessionEvent::Final { text: "f".to_string() },
        VoiceSessionEvent::Completed { session_duration_ms: 3 },
        VoiceSessionEvent::Canceled { session_duration_ms: Some(4) },
        VoiceSessionEvent::Error(VoiceSessionError::SpeechPrivacyPolicyNotAccepted),
        VoiceSessionEvent::Error(VoiceSessionError::Other("e".to_string())),
    ];
    for event in events {
        assert_eq!(format!("{:?}", event.clone()), format!("{event:?}"));
    }
    let heard = [
        RealtimeSpeechEvent::Hypothesis { text: "h".to_string() },
        RealtimeSpeechEvent::Final { text: "f".to_string() },
        RealtimeSpeechEvent::Completed,
        RealtimeSpeechEvent::Canceled,
        RealtimeSpeechEvent::Error("e".to_string()),
    ];
    for event in heard {
        assert_eq!(format!("{:?}", event.clone()), format!("{event:?}"));
    }
}

#[test]
fn events_reach_the_user() {
    let mut input = idle();
    let session = input.start_listening(PRESSED, MicrophoneAccessState::NotRefused).unwrap();
    for text in ["a", "b"] {
        let event = VoiceSessionEvent::Final { text: text.to_string() };
        assert!(session.event_tx.try_send(event).is_ok());
    }
    assert!(matches!(
        session.event_rx.try_recv(),
        Ok(VoiceSessionEvent::Final { text }) if text == "a"
    ));
}

#[test]
fn refused_commands_are_handed_back() {
    let stop = VoiceSessionCommand::Stop;
    assert_eq!(delivered(stop, Ok(())), CommandDelivery::Sent(stop));
    assert_eq!(delivered(stop, Err(CommandRefusal::Full(stop))), CommandDelivery::Refused(stop));
    assert_eq!(delivered(stop, Err(CommandRefusal::Closed(stop))), CommandDelivery::Refused(stop));
}

#[test]
fn session_errors_read_as_the_recognizers_do() {
    let privacy = VoiceSessionError::from(&Error::SpeechPrivacyPolicyNotAccepted);
    assert!(matches!(privacy, VoiceSessionError::SpeechPrivacyPolicyNotAccepted));
    assert_eq!(privacy.to_text(), Error::SpeechPrivacyPolicyNotAccepted.to_text());
    let other = VoiceSessionError::from(&Error::Timeout);
    assert!(matches!(&other, VoiceSessionError::Other(_)));
    assert_eq!(other.to_text(), "speech recognition timed out");
}

#[test]
fn recognizer_events_are_passed_on() {
    let text = || "t".to_string();
    let (event, end) = forward_realtime_event(RealtimeSpeechEvent::Hypothesis { text: text() }, 5);
    assert!(!end && matches!(event, VoiceSessionEvent::Hypothesis { text } if text == "t"));
    let (event, end) = forward_realtime_event(RealtimeSpeechEvent::Final { text: text() }, 5);
    assert!(!end && matches!(event, VoiceSessionEvent::Final { text } if text == "t"));
    let (event, end) = forward_realtime_event(RealtimeSpeechEvent::Completed, 5);
    assert!(end && matches!(event, VoiceSessionEvent::Completed { session_duration_ms: 5 }));
    let (event, end) = forward_realtime_event(RealtimeSpeechEvent::Canceled, 5);
    assert!(end && matches!(event, VoiceSessionEvent::Canceled { session_duration_ms: Some(5) }));
    let (event, end) = forward_realtime_event(RealtimeSpeechEvent::Error(text()), 5);
    assert!(end && matches!(
        event,
        VoiceSessionEvent::Error(VoiceSessionError::Other(text)) if text == "t"
    ));
}

fn run(inputs: Vec<SessionInput>) -> (SessionPhase, Vec<SessionOutput>) {
    let mut phase = SessionPhase::Starting;
    let mut outputs = Vec::new();
    for (i, input) in inputs.into_iter().enumerate() {
        let (next, output) = session_step(phase, input, i as u64);
        phase = next;
        outputs.push(output);
    }
    (phase, outputs)
}

fn said(outputs: &[SessionOutput]) -> Vec<String> {
    outputs.iter().filter_map(|output| output.send.as_ref()).map(|e| format!("{e:?}")).collect()
}

fn heard(text: &str) -> SessionInput {
    SessionInput::Event(RealtimeSpeechEvent::Final { text: text.to_string() })
}

#[test]
fn stopped_sessions_pass_on_what_is_left() {
    let (phase, outputs) = run(vec![
        SessionInput::Started,
        heard("a"),
        SessionInput::Command(VoiceSessionCommand::Stop),
        SessionInput::ControlDone,
        heard("b"),
        SessionInput::NothingPending,
    ]);
    assert_eq!(phase, SessionPhase::Ended);
    assert_eq!(outputs[2].control, Some(SessionControl::Stop));
    assert!(matches!(outputs[5].result, Some(Ok(()))));
    assert_eq!(
        said(&outputs),
        vec![
            "Final { text: \"a\" }",
            "Final { text: \"b\" }",
            "Completed { session_duration_ms: 5 }",
        ]
    );
}

#[test]
fn canceled_sessions_say_so() {
    for input in
        [SessionInput::Command(VoiceSessionCommand::Cancel), SessionInput::CommandsClosed]
    {
        let (phase, outputs) = run(vec![
            SessionInput::Started,
            input,
            SessionInput::ControlDone,
            SessionInput::NothingPending,
        ]);
        assert_eq!(phase, SessionPhase::Ended);
        assert_eq!(outputs[1].control, Some(SessionControl::Cancel));
        assert_eq!(said(&outputs), vec!["Canceled { session_duration_ms: Some(3) }"]);
    }
}

#[test]
fn a_pending_end_is_not_said_twice() {
    let (phase, outputs) = run(vec![
        SessionInput::Started,
        SessionInput::Command(VoiceSessionCommand::Stop),
        SessionInput::ControlDone,
        SessionInput::Event(RealtimeSpeechEvent::Canceled),
        SessionInput::NothingPending,
        heard("late"),
    ]);
    assert_eq!(phase, SessionPhase::Ended);
    assert_eq!(said(&outputs), vec!["Canceled { session_duration_ms: Some(3) }"]);
    assert!(matches!(outputs[3].result, Some(Ok(()))));
    assert!(outputs[4].result.is_none());
}

#[test]
fn sessions_end_with_their_recognizer() {
    let (phase, outputs) = run(vec![SessionInput::Started, SessionInput::EventsClosed]);
    assert_eq!(phase, SessionPhase::Ended);
    assert_eq!(said(&outputs), vec!["Completed { session_duration_ms: 1 }"]);
    let (phase, outputs) = run(vec![
        SessionInput::Started,
        SessionInput::Event(RealtimeSpeechEvent::Error("e".to_string())),
    ]);
    assert_eq!(phase, SessionPhase::Ended);
    assert_eq!(said(&outputs), vec!["Error(Other(\"e\"))"]);
    assert!(matches!(outputs[1].result, Some(Ok(()))));
}

#[test]
fn sessions_that_do_not_start_say_why() {
    let (phase, outputs) = run(vec![SessionInput::StartFailed(Error::Timeout)]);
    assert_eq!(phase, SessionPhase::Ended);
    assert_eq!(said(&outputs), vec!["Error(Other(\"speech recognition timed out\"))"]);
    assert!(matches!(outputs[0].result, Some(Err(Error::Timeout))));
}

#[test]
fn sessions_that_cannot_be_stopped_fail() {
    for command in [VoiceSessionCommand::Stop, VoiceSessionCommand::Cancel] {
        let (phase, outputs) = run(vec![
            SessionInput::Started,
            SessionInput::Command(command),
            SessionInput::ControlFailed(Error::Timeout),
        ]);
        assert_eq!(phase, SessionPhase::Ended);
        assert!(said(&outputs).is_empty());
        assert!(matches!(outputs[2].result, Some(Err(Error::Timeout))));
    }
}

#[test]
fn going_sessions_go_on() {
    let (phase, outputs) = run(vec![SessionInput::Started, heard("a"), heard("b")]);
    assert_eq!(phase, SessionPhase::Running);
    assert_eq!(said(&outputs).len(), 2);
    assert!(outputs.iter().all(|output| output.result.is_none() && output.control.is_none()));
}

#[test]
fn sessions_measure_their_time() {
    let mut input = idle();
    let session = input.start_listening(PRESSED, MicrophoneAccessState::NotRefused).unwrap();
    let start = session.session_start;
    while start.elapsed().as_millis() < 20 {}
    let (phase, output) = run_session(SessionPhase::Running, SessionInput::EventsClosed, &start);
    assert_eq!(phase, SessionPhase::Ended);
    match output.send {
        Some(VoiceSessionEvent::Completed { session_duration_ms }) => {
            assert!((20..20_000).contains(&session_duration_ms));
        }
        other => panic!("{other:?}"),
    }
}
