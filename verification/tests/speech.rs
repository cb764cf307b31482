//! Speech engines: dictation, real-time sessions, and their errors.

use voice_sessions::error::{
    sapi, Error, IoFailure, WindowsError, SPEECH_PRIVACY_POLICY_NOT_ACCEPTED,
};
use voice_sessions::realtime::{
    completion_event, hypothesis_event, result_event, CompletionNotice, ControlStep,
    RealtimeSpeechEvent, RealtimeSpeechRecognizer, SessionControl, SpeechRecognitionResultStatus,
    StartupStep, StatusReport, StepReport,
};
use voice_sessions::realtime_fallback::RealtimeSpeechSession;
use voice_sessions::sapi::{
    com_state, wait_for_recognition, ComState, DrainResult, Event, EventDrain, SapiCodes, WaitStep,
};
use voice_sessions::{fallback, windows};

const PRIVACY: &str = "Windows speech recognition privacy is disabled. Enable speech recognition in Windows Settings > Privacy & security > Speech.";

const CODES: SapiCodes = SapiCodes {
    recognition: 38,
    false_recognition: 43,
    end_input_stream: 2,
    end_sr_stream: 34,
    lparam_is_object: 2,
    lparam_is_undefined: 0,
};

fn windows_error(code: i32) -> WindowsError {
    WindowsError { code, message: "denied".to_string() }
}

fn status(status: SpeechRecognitionResultStatus, shown: &str) -> StatusReport {
    StatusReport { status, shown: shown.to_string() }
}

#[test]
fn errors_read_well() {
    assert_eq!(SPEECH_PRIVACY_POLICY_NOT_ACCEPTED, 0x8004_5509_u32 as i32);
    let texts = [
        (Error::Windows(windows_error(-1)), "Windows speech recognition error: denied"),
        (
            Error::WindowsOperation { operation: "Op", source: windows_error(-1) },
            "Windows speech recognition operation `Op` failed: denied",
        ),
        (Error::SpeechPrivacyPolicyNotAccepted, PRIVACY),
        (Error::Io(IoFailure::UnexpectedEof), "I/O error: failed to fill whole buffer"),
        (Error::Io(IoFailure::Other("gone".to_string())), "I/O error: gone"),
        (Error::UnsupportedWavFormat("x".to_string()), "unsupported WAV format: x"),
        (Error::Utf16("x".to_string()), "Windows SAPI returned invalid UTF-16 text: x"),
        (Error::Timeout, "speech recognition timed out"),
        (Error::EmptyRecognition, "speech recognition returned no text"),
        (Error::Other("x".to_string()), "x"),
    ];
    for (error, text) in texts {
        assert_eq!(error.to_text(), text);
    }
}

#[test]
fn missing_consent_has_an_error_of_its_own() {
    let refused = windows_error(SPEECH_PRIVACY_POLICY_NOT_ACCEPTED);
    assert!(matches!(
        Error::from_windows_operation("Op", refused),
        Error::SpeechPrivacyPolicyNotAccepted
    ));
    assert!(matches!(
        sapi::<u8>("Op", Err(windows_error(-5))),
        Err(Error::WindowsOperation { operation: "Op", source }) if source.code == -5
    ));
    assert!(matches!(sapi("Op", Ok(3)), Ok(3)));
}

#[test]
fn event_records_are_read() {
    let event = |kind: i32, id: i32| Event::from_sapi((kind << 16) | id, &CODES);
    assert!(matches!(event(2, 38), Event::Recognition(())));
    assert!(matches!(event(2, 43), Event::FalseRecognition));
    assert!(matches!(event(2, 2), Event::Other));
    assert!(matches!(event(0, 2), Event::EndStream));
    assert!(matches!(event(0, 34), Event::EndStream));
    assert!(matches!(event(0, 38), Event::Other));
    assert!(matches!(event(1, 38), Event::Other));
    assert!(matches!(event(-1, 2), Event::Other));
}

fn drain(events: Vec<Event<String>>) -> DrainResult {
    let mut drain = EventDrain::new();
    for event in events {
        if let Some(result) = drain.drain_events(Some(event)) {
            return result;
        }
    }
    drain.drain_events(None).unwrap()
}

#[test]
fn events_are_drained() {
    assert!(matches!(drain(vec![]), DrainResult::Pending));
    assert!(matches!(drain(vec![Event::FalseRecognition, Event::Other]), DrainResult::Pending));
    assert!(matches!(drain(vec![Event::EndStream, Event::Other]), DrainResult::EndStream));
    let text = |text: &str| Event::Recognition(text.to_string());
    let result = drain(vec![Event::EndStream, text("first"), text("second")]);
    assert!(matches!(result, DrainResult::Recognition(text) if text == "first"));
}

#[test]
fn recognitions_are_waited_for() {
    let step = wait_for_recognition(DrainResult::Recognition("t".to_string()), None);
    assert!(matches!(step, Ok(WaitStep::Finished(text)) if text == "t"));
    let step = wait_for_recognition(DrainResult::EndStream, None);
    assert!(matches!(step, Ok(WaitStep::Finished(text)) if text.is_empty()));
    assert!(matches!(wait_for_recognition(DrainResult::Pending, None), Err(Error::Timeout)));
    let wait = |ms: u128| match wait_for_recognition(DrainResult::Pending, Some(ms)) {
        Ok(WaitStep::WaitFor(ms)) => ms,
        other => panic!("{other:?}"),
    };
    assert_eq!(wait(0), 0);
    assert_eq!(wait(30_000), 30_000);
    assert_eq!(wait(u128::from(u32::MAX)), u32::MAX);
    assert_eq!(wait(u128::from(u32::MAX) + 1), u32::MAX - 1);
}

#[test]
fn the_component_runtime_is_shut_down_where_it_was_initialized() {
    assert_eq!(com_state(0, -9), ComState::Initialized);
    assert_eq!(com_state(1, -9), ComState::Initialized);
    assert_eq!(com_state(-9, -9), ComState::InUse);
    assert_eq!(com_state(-8, -9), ComState::Failed(-8));
}

#[test]
fn blank_transcripts_count_as_none() {
    let recognizer = windows::SystemSpeechRecognizer::new().unwrap();
    assert_eq!(recognizer.timeout_secs, 30);
    let text = recognizer.transcribe_wav_file(Ok(" hello ".to_string()));
    assert_eq!(text.unwrap(), " hello ");
    for blank in ["", " \n\u{3000}"] {
        let r = recognizer.transcribe_wav_file(Ok(blank.to_string()));
        assert!(matches!(r, Err(Error::EmptyRecognition)));
    }
    assert!(matches!(recognizer.transcribe_wav_file(Err(Error::Timeout)), Err(Error::Timeout)));
}

#[test]
fn other_systems_have_no_recognizer() {
    let unavailable = "system speech recognition is not available on this platform";
    assert_eq!(fallback::SystemSpeechRecognizer::new().unwrap_err().to_text(), unavailable);
    let recognizer = fallback::SystemSpeechRecognizer;
    assert_eq!(recognizer.transcribe_wav_bytes(b"x").unwrap_err().to_text(), unavailable);
    assert_eq!(recognizer.transcribe_wav_file("x").unwrap_err().to_text(), unavailable);
    let realtime = RealtimeSpeechRecognizer::new().unwrap();
    assert_eq!(
        realtime.start_session().unwrap_err().to_text(),
        "real-time system speech recognition is only available on Windows"
    );
    assert!(RealtimeSpeechSession.stop().is_ok());
    assert!(RealtimeSpeechSession.cancel().is_ok());
}

#[test]
fn notifications_become_events() {
    let text = || Some("t".to_string());
    assert!(matches!(
        hypothesis_event(text()),
        Some(RealtimeSpeechEvent::Hypothesis { text }) if text == "t"
    ));
    assert!(hypothesis_event(None).is_none());
    let success = Some(SpeechRecognitionResultStatus::Success);
    assert!(matches!(
        result_event(success, text()),
        Some(RealtimeSpeechEvent::Final { text }) if text == "t"
    ));
    assert!(result_event(success, None).is_none());
    assert!(result_event(None, text()).is_none());
    assert!(result_event(Some(SpeechRecognitionResultStatus::Unknown), text()).is_none());
}

#[test]
fn the_end_of_a_session_becomes_an_event() {
    let end = |reason, shown: &str| completion_event(CompletionNotice::Status(status(reason, shown)));
    assert!(matches!(
        completion_event(CompletionNotice::Bare),
        Some(RealtimeSpeechEvent::Completed)
    ));
    assert!(completion_event(CompletionNotice::Unreadable).is_none());
    assert!(matches!(
        end(SpeechRecognitionResultStatus::Success, "S"),
        Some(RealtimeSpeechEvent::Completed)
    ));
    assert!(matches!(
        end(SpeechRecognitionResultStatus::UserCanceled, "S"),
        Some(RealtimeSpeechEvent::Canceled)
    ));
    for reason in [
        SpeechRecognitionResultStatus::TopicLanguageNotSupported,
        SpeechRecognitionResultStatus::GrammarLanguageMismatch,
        SpeechRecognitionResultStatus::GrammarCompilationFailure,
        SpeechRecognitionResultStatus::AudioQualityFailure,
        SpeechRecognitionResultStatus::Unknown,
        SpeechRecognitionResultStatus::TimeoutExceeded,
        SpeechRecognitionResultStatus::PauseLimitExceeded,
        SpeechRecognitionResultStatus::NetworkFailure,
        SpeechRecognitionResultStatus::MicrophoneUnavailable,
    ] {
        assert!(matches!(
            end(reason, "S(7)"),
            Some(RealtimeSpeechEvent::Error(m)) if m == "Recognition completed with status: S(7)"
        ));
    }
    assert!(matches!(
        end(SpeechRecognitionResultStatus::Unlisted, "S(99)"),
        Some(RealtimeSpeechEvent::Error(m))
            if m == "Recognition completed with unknown status: S(99)"
    ));
}

#[test]
fn sessions_start_step_by_step() {
    let mut step = StartupStep::CreateRecognizer;
    let mut calls = Vec::new();
    while step != StartupStep::Running {
        calls.push(step.operation());
        let report = if step == StartupStep::ReadCompilationStatus {
            assert_eq!(step.advance(StepReport::Done).unwrap(), step);
            StepReport::Compiled(status(SpeechRecognitionResultStatus::Success, "S"))
        } else {
            StepReport::Done
        };
        step = step.advance(report).unwrap();
    }
    assert_eq!(
        calls,
        vec![
            "SpeechRecognizer::new",
            "CompileConstraintsAsync",
            "CompileConstraintsAsync.await",
            "CompilationResult.Status",
            "ContinuousRecognitionSession",
            "HypothesisGenerated handler",
            "ResultGenerated handler",
            "Completed handler",
            "StartAsync",
            "StartAsync.await",
        ]
    );
}

#[test]
fn failed_steps_name_their_call() {
    let refused = || StepReport::Failed(windows_error(SPEECH_PRIVACY_POLICY_NOT_ACCEPTED));
    for step in [StartupStep::Start, StartupStep::AwaitStart] {
        assert!(matches!(step.advance(refused()), Err(Error::SpeechPrivacyPolicyNotAccepted)));
    }
    assert!(matches!(
        StartupStep::CompileConstraints.advance(refused()),
        Err(Error::WindowsOperation { operation: "CompileConstraintsAsync", .. })
    ));
    assert!(matches!(
        StartupStep::Start.advance(StepReport::Failed(windows_error(-1))),
        Err(Error::WindowsOperation { operation: "StartAsync", .. })
    ));
}

#[test]
fn constraints_have_to_compile() {
    let report = StepReport::Compiled(status(SpeechRecognitionResultStatus::NetworkFailure, "N(5)"));
    assert_eq!(
        StartupStep::ReadCompilationStatus.advance(report).unwrap_err().to_text(),
        "Speech recognition constraint compilation failed: N(5)"
    );
}

#[test]
fn failed_controls_name_their_call() {
    let operation = |control: SessionControl, step| match control.failed(step, windows_error(-1)) {
        Error::WindowsOperation { operation, .. } => operation,
        other => panic!("{other:?}"),
    };
    let open = ControlStep::OpenSession;
    assert_eq!(operation(SessionControl::Stop, open), "ContinuousRecognitionSession");
    assert_eq!(operation(SessionControl::Cancel, open), "ContinuousRecognitionSession");
    assert_eq!(operation(SessionControl::Stop, ControlStep::Request), "StopAsync");
    assert_eq!(operation(SessionControl::Stop, ControlStep::Await), "StopAsync.await");
    assert_eq!(operation(SessionControl::Cancel, ControlStep::Request), "CancelAsync");
    assert_eq!(operation(SessionControl::Cancel, ControlStep::Await), "CancelAsync.await");
    let refused = windows_error(SPEECH_PRIVACY_POLICY_NOT_ACCEPTED);
    let error = SessionControl::Stop.failed(ControlStep::Request, refused);
    assert!(matches!(error, Error::WindowsOperation { .. }));
}
