//! Batch speech recognition on Windows.
use vstd::prelude::*;

use crate::error::Error;
use crate::text::blank;
#[allow(unused_imports)]
use crate::text::is_blank;

verus! {

/// How long a recognition may take, in seconds.
pub const RECOGNITION_TIMEOUT_SECS: u64 = 30;

/// The recognizer of Windows.
#[derive(Debug)]
pub struct SystemSpeechRecognizer {
    pub timeout_secs: u64,
}

impl SystemSpeechRecognizer {
    pub fn new() -> (r: Result<SystemSpeechRecognizer, Error>)
        ensures
            r == Ok::<SystemSpeechRecognizer, Error>(
                SystemSpeechRecognizer { timeout_secs: RECOGNITION_TIMEOUT_SECS },
            ),
    {
        Ok(SystemSpeechRecognizer { timeout_secs: RECOGNITION_TIMEOUT_SECS })
    }

    /// The transcript of a recording, given what dictation made of it. A transcript that is
    /// blank counts as none.
    pub fn transcribe_wav_file(&self, dictated: Result<String, Error>) -> (r: Result<String, Error>)
        ensures
            r == match dictated {
                Ok(text) if is_blank(text@) => Err(Error::EmptyRecognition),
                _ => dictated,
            },
    {
        match dictated {
            Ok(text) => if blank(&text) {
                Err(Error::EmptyRecognition)
            } else {
                Ok(text)
            },
            Err(error) => Err(error),
        }
    }
}

} // verus!
