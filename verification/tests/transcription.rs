//! Transcription of recordings.

use std::sync::Arc;

use voice_sessions::error::Error;
use voice_sessions::transcriber::{
    decoded_wav, SystemSpeechRecognizerAdapter, TranscribeError, Transcriber, VoiceTranscriber,
};

struct Echo;

impl Transcriber for Echo {
    fn transcribe(&self, wav_base64: String) -> Result<String, TranscribeError> {
        Ok(wav_base64)
    }
}

#[test]
fn transcribers_are_there_or_not() {
    let voice = VoiceTranscriber::new(Arc::new(Echo));
    assert_eq!(voice.transcriber().unwrap().transcribe("x".to_string()).unwrap(), "x");
    assert!(VoiceTranscriber::disabled().transcriber().is_none());
    assert!(VoiceTranscriber::from_option(None).transcriber().is_none());
    assert!(VoiceTranscriber::from_option(Some(Arc::new(Echo))).transcriber().is_some());
}

#[test]
fn transcription_errors_read_well() {
    let texts = [
        (TranscribeError::QuotaLimit, "Request failed due to lack of Voice quota."),
        (TranscribeError::ServerOverloaded, "Zap is currently overloaded. Please try again later."),
        (TranscribeError::Transport, "Internal error occurred at transport layer."),
        (TranscribeError::Deserialization, "Failed to deserialize JSON."),
        (TranscribeError::Disabled, "Voice transcription is unavailable in Zap."),
        (TranscribeError::Other("x".to_string()), "x"),
    ];
    for (error, text) in texts {
        assert_eq!(error.to_text(), text);
    }
}

#[test]
fn adapters_need_a_recognizer() {
    assert!(SystemSpeechRecognizerAdapter::new(Ok(())).is_ok());
    let failed = SystemSpeechRecognizerAdapter::new::<()>(Err(Error::Timeout));
    assert!(matches!(failed, Err(Error::Timeout)));
}

#[test]
fn recordings_come_in_base64() {
    let adapter = SystemSpeechRecognizerAdapter::new(Ok(())).unwrap();
    assert_eq!(adapter.wav_bytes("UklGRg==").unwrap(), b"RIFF");
    assert_eq!(adapter.wav_bytes("+/8=").unwrap(), vec![0xfb, 0xff]);
    assert_eq!(adapter.wav_bytes("").unwrap(), Vec::<u8>::new());
    for (text, told) in [
        ("!AAA", "Invalid symbol 33, offset 0."),
        ("UklGRg", "Invalid padding"),
        ("A", "Invalid input length: 1"),
    ] {
        assert!(
            matches!(adapter.wav_bytes(text), Err(TranscribeError::Other(m)) if m == told),
            "{text}"
        );
    }
}

#[test]
fn decoding_errors_are_passed_on() {
    assert_eq!(decoded_wav(Ok(vec![1, 2])).unwrap(), vec![1, 2]);
    assert_eq!(decoded_wav(Err("bad".to_string())).unwrap_err().to_text(), "bad");
}

#[test]
fn transcripts_and_failures_are_passed_on() {
    let adapter = SystemSpeechRecognizerAdapter::new(Ok(())).unwrap();
    assert_eq!(adapter.transcribe(Ok(Ok("hello".to_string()))).unwrap(), "hello");
    assert_eq!(
        adapter.transcribe(Ok(Err(Error::EmptyRecognition))).unwrap_err().to_text(),
        "speech recognition returned no text"
    );
    assert_eq!(adapter.transcribe(Err("panicked".to_string())).unwrap_err().to_text(), "panicked");
}
