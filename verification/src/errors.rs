//! The failures of a run, each with the text that explains it.

use vstd::prelude::*;
use vstd::string::*;

verus! {

/// What went wrong, without the explanation.
#[derive(Clone, Copy, Debug, PartialEq, Eq, Structural)]
pub enum ErrorKind {
    /// A file is missing or unreadable, or the speech tool was not found.
    File,
    /// The speech tool ran and failed for a reason other than the voice.
    Speech,
    /// The speech tool does not know the voice that was asked for.
    VoiceNotFound,
    /// A setting is outside what is accepted.
    Config,
    /// Any other failure of the system or of a tool.
    System,
}

/// A failure of the program. The text held by a variant explains it.
#[derive(Clone, Debug, PartialEq, Eq)]
pub enum TtsError {
    /// A file is missing or unreadable, or the speech tool was not found.
    FileError(String),
    /// The speech tool ran and failed for a reason other than the voice.
    SpeechError(String),
    /// The speech tool does not know the voice that was asked for.
    VoiceNotFound(String),
    /// A setting is outside what is accepted.
    ConfigError(String),
    /// Any other failure of the system or of a tool.
    SystemError(String),
}

/// Results whose failure is a [`TtsError`].
pub type TtsResult<T> = Result<T, TtsError>;

/// A [`TtsError`] as contracts see it: its kind and its explanation.
pub struct TtsErrorView {
    pub kind: ErrorKind,
    pub message: Seq<char>,
}

impl View for TtsError {
    type V = TtsErrorView;

    open spec fn view(&self) -> TtsErrorView {
        match *self {
            TtsError::FileError(message) => TtsErrorView {
                kind: ErrorKind::File,
                message: message@,
            },
            TtsError::SpeechError(message) => TtsErrorView {
                kind: ErrorKind::Speech,
                message: message@,
            },
            TtsError::VoiceNotFound(message) => TtsErrorView {
                kind: ErrorKind::VoiceNotFound,
                message: message@,
            },
            TtsError::ConfigError(message) => TtsErrorView {
                kind: ErrorKind::Config,
                message: message@,
            },
            TtsError::SystemError(message) => TtsErrorView {
                kind: ErrorKind::System,
                message: message@,
            },
        }
    }
}

/// A result as contracts see it: the view of what it holds on either side.
pub open spec fn result_view<T: View>(result: TtsResult<T>) -> Result<T::V, TtsErrorView> {
    match result {
        Ok(value) => Ok(value@),
        Err(error) => Err(error@),
    }
}

/// The words that open the displayed form of an error of this kind.
pub open spec fn kind_label(kind: ErrorKind) -> Seq<char> {
    match kind {
        ErrorKind::File => "File error: "@,
        ErrorKind::Speech => "Speech synthesis error: "@,
        ErrorKind::VoiceNotFound => "Voice not found: "@,
        ErrorKind::Config => "Configuration error: "@,
        ErrorKind::System => "System error: "@,
    }
}

/// The line shown to the user for an error: the label of its kind, then its
/// explanation.
pub open spec fn displayed(error: TtsErrorView) -> Seq<char> {
    kind_label(error.kind) + error.message
}

impl TtsError {
    /// The kind of this error.
    pub fn kind(&self) -> (kind: ErrorKind)
        ensures
            kind == self@.kind,
    {
        match self {
            TtsError::FileError(_) => ErrorKind::File,
            TtsError::SpeechError(_) => ErrorKind::Speech,
            TtsError::VoiceNotFound(_) => ErrorKind::VoiceNotFound,
            TtsError::ConfigError(_) => ErrorKind::Config,
            TtsError::SystemError(_) => ErrorKind::System,
        }
    }

    /// The explanation that this error carries.
    pub fn message(&self) -> (message: &str)
        ensures
            message@ == self@.message,
    {
        match self {
            TtsError::FileError(message) => message.as_str(),
            TtsError::SpeechError(message) => message.as_str(),
            TtsError::VoiceNotFound(message) => message.as_str(),
            TtsError::ConfigError(message) => message.as_str(),
            TtsError::SystemError(message) => message.as_str(),
        }
    }

    /// The line shown to the user for this error.
    pub fn to_string(&self) -> (line: String)
        ensures
            line@ == displayed(self@),
    {
        let label = match self {
            TtsError::FileError(_) => "File error: ",
            TtsError::SpeechError(_) => "Speech synthesis error: ",
            TtsError::VoiceNotFound(_) => "Voice not found: ",
            TtsError::ConfigError(_) => "Configuration error: ",
            TtsError::SystemError(_) => "System error: ",
        };
        let mut line = String::from_str(label);
        line.append(self.message());
        line
    }
}

/// Why the system could not start a tool or complete a request: what the
/// program reads of an operating-system error.
#[derive(Clone, Debug, PartialEq, Eq)]
pub struct OsError {
    /// Whether the system reported that the thing asked for does not exist.
    pub not_found: bool,
    /// The system's own description of the failure.
    pub message: String,
}

/// An [`OsError`] as contracts see it.
pub struct OsErrorView {
    pub not_found: bool,
    pub message: Seq<char>,
}

impl View for OsError {
    type V = OsErrorView;

    open spec fn view(&self) -> OsErrorView {
        OsErrorView { not_found: self.not_found, message: self.message@ }
    }
}

/// The error that a failure of the system becomes: a file error when the
/// thing asked for does not exist, a system error otherwise, with the
/// system's description either way.
pub open spec fn os_error_outcome(failure: OsErrorView) -> TtsErrorView {
    TtsErrorView {
        kind: if failure.not_found {
            ErrorKind::File
        } else {
            ErrorKind::System
        },
        message: failure.message,
    }
}

impl From<OsError> for TtsError {
    fn from(failure: OsError) -> (error: TtsError)
        ensures
            error@ == os_error_outcome(failure@),
    {
        if failure.not_found {
            TtsError::FileError(failure.message)
        } else {
            TtsError::SystemError(failure.message)
        }
    }
}

impl vstd::std_specs::convert::FromSpecImpl<OsError> for TtsError {
    open spec fn obeys_from_spec() -> bool {
        true
    }

    open spec fn from_spec(failure: OsError) -> TtsError {
        if failure.not_found {
            TtsError::FileError(failure.message)
        } else {
            TtsError::SystemError(failure.message)
        }
    }
}

} // verus!
