//! Transcription of recordings behind one interface.
use std::sync::Arc;

use vstd::prelude::*;

use crate::error::Error;

verus! {

/// Why a recording could not be transcribed.
#[derive(Debug)]
pub enum TranscribeError {
    QuotaLimit,
    ServerOverloaded,
    Transport,
    Deserialization,
    /// Voice transcription is switched off.
    Disabled,
    Other(String),
}

impl TranscribeError {
    /// The text of the error.
    pub open spec fn text(&self) -> Seq<char> {
        match self {
            TranscribeError::QuotaLimit => "Request failed due to lack of Voice quota."@,
            TranscribeError::ServerOverloaded => "Zap is currently overloaded. Please try again later."@,
            TranscribeError::Transport => "Internal error occurred at transport layer."@,
            TranscribeError::Deserialization => "Failed to deserialize JSON."@,
            TranscribeError::Disabled => "Voice transcription is unavailable in Zap."@,
            TranscribeError::Other(message) => message@,
        }
    }

    /// The text of the error.
    pub fn to_text(&self) -> (text: String)
        ensures
            text@ == self.text(),
    {
        match self {
            TranscribeError::QuotaLimit => "Request failed due to lack of Voice quota.".to_owned(),
            TranscribeError::ServerOverloaded => "Zap is currently overloaded. Please try again later.".to_owned(),
            TranscribeError::Transport => "Internal error occurred at transport layer.".to_owned(),
            TranscribeError::Deserialization => "Failed to deserialize JSON.".to_owned(),
            TranscribeError::Disabled => "Voice transcription is unavailable in Zap.".to_owned(),
            TranscribeError::Other(message) => message.clone(),
        }
    }
}

/// Every error is told by its own words, and one that came from elsewhere by the words it came with.
pub proof fn transcription_errors_are_told_whole(message: String)
    ensures
        TranscribeError::Other(message).text() == message@,
        TranscribeError::QuotaLimit.text() == "Request failed due to lack of Voice quota."@,
        TranscribeError::ServerOverloaded.text()
            == "Zap is currently overloaded. Please try again later."@,
        TranscribeError::Transport.text() == "Internal error occurred at transport layer."@,
        TranscribeError::Deserialization.text() == "Failed to deserialize JSON."@,
        TranscribeError::Disabled.text() == "Voice transcription is unavailable in Zap."@,
{
}

/// Transcribes recordings.
pub trait Transcriber: Send + Sync {
    /// The text that is spoken in a WAV recording, which is given in base64. The call blocks and
    /// is made off the main thread.
    fn transcribe(&self, wav_base64: String) -> Result<String, TranscribeError>;
}

/// A transcriber that is there or not.
pub struct VoiceTranscriber {
    pub transcriber: Option<Arc<dyn Transcriber>>,
}

impl VoiceTranscriber {
    /// The transcriber that is there.
    pub fn new(transcriber: Arc<dyn Transcriber>) -> (voice: VoiceTranscriber)
        ensures
            voice.transcriber == Some(transcriber),
    {
        let present = Some(transcriber);
        VoiceTranscriber { transcriber: present }
    }

    /// No transcriber.
    pub fn disabled() -> (voice: VoiceTranscriber)
        ensures
            voice.transcriber is None,
    {
        VoiceTranscriber { transcriber: None }
    }

    /// The transcriber that is there, if any.
    pub fn from_option(transcriber: Option<Arc<dyn Transcriber>>) -> (voice: VoiceTranscriber)
        ensures
            voice.transcriber == transcriber,
    {
        VoiceTranscriber { transcriber }
    }

    /// The transcriber, if there is one.
    pub fn transcriber(&self) -> (transcriber: Option<&Arc<dyn Transcriber>>)
        ensures
            transcriber == match self.transcriber {
                Some(transcriber) => Some(&transcriber),
                None => None,
            },
    {
        self.transcriber.as_ref()
    }
}

/// The bytes that `text` stands for in standard base64, or what is wrong with it, as
/// [`base64::engine::general_purpose::STANDARD`] decodes it.
pub uninterp spec fn base64_decoded(text: Seq<char>) -> Result<Seq<u8>, Seq<char>>;

/// Calls [`base64::Engine::decode`] of [`base64::engine::general_purpose::STANDARD`]. The error
/// is given as its text.
#[verifier::external_body]
fn decode_base64(text: &str) -> (decoded: Result<Vec<u8>, String>)
    ensures
        match decoded {
            Ok(bytes) => base64_decoded(text@) == Ok::<Seq<u8>, Seq<char>>(bytes@),
            Err(message) => base64_decoded(text@) == Err::<Seq<u8>, Seq<char>>(message@),
        },
{
    base64::Engine::decode(&base64::engine::general_purpose::STANDARD, text).map_err(
        |error| error.to_string(),
    )
}

/// The bytes of a recording, given what became of decoding it.
pub fn decoded_wav(decoded: Result<Vec<u8>, String>) -> (r: Result<Vec<u8>, TranscribeError>)
    ensures
        r == match decoded {
            Ok(bytes) => Ok::<Vec<u8>, TranscribeError>(bytes),
            Err(message) => Err(TranscribeError::Other(message)),
        },
{
    match decoded {
        Ok(bytes) => Ok(bytes),
        Err(message) => Err(TranscribeError::Other(message)),
    }
}

/// Transcribes recordings with the speech recognizer of the system.
#[derive(Debug)]
pub struct SystemSpeechRecognizerAdapter;

impl SystemSpeechRecognizerAdapter {
    /// The adapter for a system whose recognizer can be had. The recognizer itself is made anew
    /// for each recording.
    pub fn new<R>(recognizer: Result<R, Error>) -> (r: Result<SystemSpeechRecognizerAdapter, Error>)
        ensures
            r == match recognizer {
                Ok(_) => Ok::<SystemSpeechRecognizerAdapter, Error>(SystemSpeechRecognizerAdapter),
                Err(error) => Err(error),
            },
    {
        match recognizer {
            Ok(_) => Ok(SystemSpeechRecognizerAdapter),
            Err(error) => Err(error),
        }
    }

    /// The bytes of a recording that is given in base64.
    pub fn wav_bytes(&self, wav_base64: &str) -> (r: Result<Vec<u8>, TranscribeError>)
        ensures
            match base64_decoded(wav_base64@) {
                Ok(bytes) => r matches Ok(decoded) && decoded@ == bytes,
                Err(message) => r matches Err(TranscribeError::Other(told)) && told@ == message,
            },
    {
        decoded_wav(decode_base64(wav_base64))
    }

    /// The transcript of a recording, given what the recognizer made of it. `finished` fails with
    /// a text where the recognizer was broken off.
    pub fn transcribe(&self, finished: Result<Result<String, Error>, String>) -> (r: Result<
        String,
        TranscribeError,
    >)
        ensures
            match finished {
                Ok(Ok(text)) => r == Ok::<String, TranscribeError>(text),
                Ok(Err(error)) => r matches Err(TranscribeError::Other(told)) && told@
                    == error.text(),
                Err(message) => r == Err::<String, TranscribeError>(
                    TranscribeError::Other(message),
                ),
            },
    {
        match finished {
            Ok(Ok(text)) => Ok(text),
            Ok(Err(error)) => Err(TranscribeError::Other(error.to_text())),
            Err(message) => Err(TranscribeError::Other(message)),
        }
    }
}

} // verus!
