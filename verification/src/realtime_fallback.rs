//! Real-time speech recognition on systems that offer none.
use vstd::prelude::*;

use crate::error::Error;
use crate::realtime::RealtimeSpeechRecognizer;

verus! {

/// A session on a system that offers no recognition. None is ever started.
#[derive(Debug)]
pub struct RealtimeSpeechSession;

impl RealtimeSpeechRecognizer {
    /// Starts no session: the system offers none.
    pub fn start_session(&self) -> (r: Result<RealtimeSpeechSession, Error>)
        ensures
            r matches Err(Error::Other(message)) && message@
                == "real-time system speech recognition is only available on Windows"@,
    {
        Err(
            Error::Other(
                "real-time system speech recognition is only available on Windows".to_owned(),
            ),
        )
    }
}

impl RealtimeSpeechSession {
    /// There is nothing to stop.
    pub fn stop(&self) -> (r: Result<(), Error>)
        ensures
            r == Ok::<(), Error>(()),
    {
        Ok(())
    }

    /// There is nothing to cancel.
    pub fn cancel(&self) -> (r: Result<(), Error>)
        ensures
            r == Ok::<(), Error>(()),
    {
        Ok(())
    }
}

} // verus!
