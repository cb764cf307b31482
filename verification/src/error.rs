//! Errors of the speech transcription back ends.
use vstd::prelude::*;

use crate::text::joined;

verus! {

/// The result code with which Windows refuses speech recognition until the user accepts the
/// speech privacy policy (0x80045509).
pub const SPEECH_PRIVACY_POLICY_NOT_ACCEPTED: i32 = -2147199735;

/// A failure that Windows reported: its result code and its text.
#[derive(Debug)]
pub struct WindowsError {
    pub code: i32,
    pub message: String,
}

/// A failure to read or write.
#[derive(Debug)]
pub enum IoFailure {
    /// The input ended before what was asked for had been read.
    UnexpectedEof,
    /// Any other failure, with its text.
    Other(String),
}

/// An error of speech transcription.
#[derive(Debug)]
pub enum Error {
    Windows(WindowsError),
    WindowsOperation { operation: &'static str, source: WindowsError },
    SpeechPrivacyPolicyNotAccepted,
    Io(IoFailure),
    UnsupportedWavFormat(String),
    /// Windows returned text that is not valid UTF-16.
    Utf16(String),
    Timeout,
    EmptyRecognition,
    Other(String),
}

impl IoFailure {
    /// The text that describes the failure.
    pub open spec fn text(&self) -> Seq<char> {
        match self {
            IoFailure::UnexpectedEof => "failed to fill whole buffer"@,
            IoFailure::Other(message) => message@,
        }
    }

    /// The text that describes the failure.
    pub fn to_text(&self) -> (text: String)
        ensures
            text@ == self.text(),
    {
        match self {
            IoFailure::UnexpectedEof => "failed to fill whole buffer".to_owned(),
            IoFailure::Other(message) => message.clone(),
        }
    }
}

impl Error {
    /// The text that describes the error to a user.
    pub open spec fn text(&self) -> Seq<char> {
        match self {
            Error::Windows(source) => "Windows speech recognition error: "@ + source.message@,
            Error::WindowsOperation { operation, source } => {
                "Windows speech recognition operation `"@ + operation@ + "` failed: "@
                    + source.message@
            },
            Error::SpeechPrivacyPolicyNotAccepted => "Windows speech recognition privacy is disabled. Enable speech recognition in Windows Settings > Privacy & security > Speech."@,
            Error::Io(failure) => "I/O error: "@ + failure.text(),
            Error::UnsupportedWavFormat(detail) => "unsupported WAV format: "@ + detail@,
            Error::Utf16(detail) => "Windows SAPI returned invalid UTF-16 text: "@ + detail@,
            Error::Timeout => "speech recognition timed out"@,
            Error::EmptyRecognition => "speech recognition returned no text"@,
            Error::Other(message) => message@,
        }
    }

    /// The text that describes the error to a user.
    pub fn to_text(&self) -> (text: String)
        ensures
            text@ == self.text(),
    {
        match self {
            Error::Windows(source) => joined("Windows speech recognition error: ", &source.message),
            Error::WindowsOperation { operation, source } => {
                joined("Windows speech recognition operation `", operation).concat(
                    "` failed: ",
                ).concat(&source.message)
            },
            Error::SpeechPrivacyPolicyNotAccepted => "Windows speech recognition privacy is disabled. Enable speech recognition in Windows Settings > Privacy & security > Speech.".to_owned(),
            Error::Io(failure) => joined("I/O error: ", &failure.to_text()),
            Error::UnsupportedWavFormat(detail) => joined("unsupported WAV format: ", detail),
            Error::Utf16(detail) => joined("Windows SAPI returned invalid UTF-16 text: ", detail),
            Error::Timeout => "speech recognition timed out".to_owned(),
            Error::EmptyRecognition => "speech recognition returned no text".to_owned(),
            Error::Other(message) => message.clone(),
        }
    }

    /// The error for a Windows operation that failed with `source`.
    pub open spec fn of_windows_operation(operation: &'static str, source: WindowsError) -> Error {
        if source.code == SPEECH_PRIVACY_POLICY_NOT_ACCEPTED {
            Error::SpeechPrivacyPolicyNotAccepted
        } else {
            Error::WindowsOperation { operation, source }
        }
    }

    /// The error for a Windows operation that failed with `source`: the missing consent to the
    /// speech privacy policy has an error of its own.
    pub fn from_windows_operation(operation: &'static str, source: WindowsError) -> (error: Error)
        ensures
            error == Error::of_windows_operation(operation, source),
    {
        if source.code == SPEECH_PRIVACY_POLICY_NOT_ACCEPTED {
            Error::SpeechPrivacyPolicyNotAccepted
        } else {
            Error::WindowsOperation { operation, source }
        }
    }
}

/// Every error is told whole: behind the words of its kind stands all that is known of it.
pub proof fn errors_are_told_whole(
    operation: &'static str,
    source: WindowsError,
    failure: IoFailure,
    detail: String,
)
    ensures
        Error::Windows(source).text() == "Windows speech recognition error: "@ + source.message@,
        (Error::WindowsOperation { operation, source }).text()
            == "Windows speech recognition operation `"@ + operation@ + "` failed: "@
            + source.message@,
        Error::Io(failure).text() == "I/O error: "@ + failure.text(),
        IoFailure::Other(detail).text() == detail@,
        IoFailure::UnexpectedEof.text() == "failed to fill whole buffer"@,
        Error::UnsupportedWavFormat(detail).text() == "unsupported WAV format: "@ + detail@,
        Error::Utf16(detail).text() == "Windows SAPI returned invalid UTF-16 text: "@ + detail@,
        Error::Other(detail).text() == detail@,
        Error::Timeout.text() == "speech recognition timed out"@,
        Error::EmptyRecognition.text() == "speech recognition returned no text"@,
{
}

/// A Windows operation fails for want of consent exactly where its code says so; any other failure
/// keeps the name of the operation and all that Windows said.
pub proof fn failures_of_windows_are_told_apart(operation: &'static str, source: WindowsError)
    ensures
        source.code == -2147199735 ==> Error::of_windows_operation(operation, source)
            == Error::SpeechPrivacyPolicyNotAccepted,
        source.code != -2147199735 ==> Error::of_windows_operation(operation, source) == (
        Error::WindowsOperation { operation, source }),
{
}

/// The outcome of the Windows call `operation`, its failure turned into an [`Error`].
pub fn sapi<T>(operation: &'static str, result: Result<T, WindowsError>) -> (r: Result<T, Error>)
    ensures
        r == match result {
            Ok(value) => Ok::<T, Error>(value),
            Err(source) => Err(Error::of_windows_operation(operation, source)),
        },
{
    match result {
        Ok(value) => Ok(value),
        Err(source) => Err(Error::from_windows_operation(operation, source)),
    }
}

} // verus!
