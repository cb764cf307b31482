//! Batch speech recognition on systems that offer none.
use vstd::prelude::*;

use crate::error::Error;

verus! {

/// The recognizer of a system that offers no speech recognition. It cannot be had.
#[derive(Debug)]
pub struct SystemSpeechRecognizer;

/// The error of a system that offers no speech recognition.
pub open spec fn is_unavailable(error: Error) -> bool {
    error matches Error::Other(message) && message@
        == "system speech recognition is not available on this platform"@
}

/// The error of a system that offers no speech recognition.
fn unavailable() -> (error: Error)
    ensures
        is_unavailable(error),
{
    Error::Other("system speech recognition is not available on this platform".to_owned())
}

impl SystemSpeechRecognizer {
    pub fn new() -> (r: Result<SystemSpeechRecognizer, Error>)
        ensures
            r matches Err(error) && is_unavailable(error),
    {
        Err(unavailable())
    }

    pub fn transcribe_wav_bytes(&self, _wav_bytes: &[u8]) -> (r: Result<String, Error>)
        ensures
            r matches Err(error) && is_unavailable(error),
    {
        Err(unavailable())
    }

    pub fn transcribe_wav_file(&self, _path: &str) -> (r: Result<String, Error>)
        ensures
            r matches Err(error) && is_unavailable(error),
    {
        Err(unavailable())
    }
}

} // verus!
