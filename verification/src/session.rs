//! The decisions of one run of the program, between the steps that the
//! caller performs: reading the file, running the speech tool, printing.

use crate::command::command_to_speak;
use crate::config::{AppConfig, AppConfigView};
use crate::errors::{
    displayed, result_view, ErrorKind, OsError, OsErrorView, TtsError, TtsErrorView, TtsResult,
};
use crate::outcome::speaking_outcome;
use crate::process::{run_view, ProcessOutputView, ToolCommand, ToolCommandView, ToolRun};
use crate::text::{decimal, decimal_string};
use crate::tts::{Platform, TextToSpeech};
use vstd::prelude::*;
use vstd::string::*;
use vstd::utf8::encode_utf8;

verus! {

/// The manner in which a line is shown to the user.
#[derive(Clone, Copy, Debug, PartialEq, Eq, Structural)]
pub enum NoticeKind {
    /// Something went well.
    Success,
    /// Something failed.
    Error,
    /// What the program is doing.
    Info,
    /// A setting in use.
    Config,
    /// A figure.
    Stat,
}

/// A line for the user: plain text, and the manner in which to show it.
#[derive(Clone, Debug, PartialEq, Eq)]
pub struct Notice {
    pub kind: NoticeKind,
    pub text: String,
}

/// A [`Notice`] as contracts see it.
pub struct NoticeView {
    pub kind: NoticeKind,
    pub text: Seq<char>,
}

impl View for Notice {
    type V = NoticeView;

    open spec fn view(&self) -> NoticeView {
        NoticeView { kind: self.kind, text: self.text@ }
    }
}

impl DeepView for Notice {
    type V = NoticeView;

    open spec fn deep_view(&self) -> NoticeView {
        self@
    }
}

/// What a run does, once its settings are known.
#[derive(Clone, Copy, Debug, PartialEq, Eq, Structural)]
pub enum Mode {
    /// List the installed voices.
    ListVoices,
    /// Show the usage guide.
    ShowHelp,
    /// Read the text file aloud.
    Speak,
}

/// What a run with these settings does: it lists the voices where that is
/// asked for, else shows the usage guide where that is asked for, else
/// reads the file aloud.
pub open spec fn mode_of(config: AppConfigView) -> Mode {
    if config.list_voices {
        Mode::ListVoices
    } else if config.show_help {
        Mode::ShowHelp
    } else {
        Mode::Speak
    }
}

/// Decides what this run does.
pub fn run_app(config: &AppConfig) -> (mode: Mode)
    ensures
        mode == mode_of(config@),
{
    if config.list_voices {
        Mode::ListVoices
    } else if config.show_help {
        Mode::ShowHelp
    } else {
        Mode::Speak
    }
}

/// The line that announces the reading of the file.
pub open spec fn reading_line(config: AppConfigView) -> NoticeView {
    NoticeView { kind: NoticeKind::Info, text: "Reading file: "@ + config.file_path }
}

/// The line that announces the reading of the file, to be shown before the
/// file is read.
pub fn reading_notice(config: &AppConfig) -> (notice: Notice)
    ensures
        notice@ == reading_line(config@),
{
    let mut text = String::from_str("Reading file: ");
    text.append(config.file_path.as_str());
    Notice { kind: NoticeKind::Info, text }
}

/// The explanation of a file that could not be read: its path and what the
/// system said.
pub open spec fn unreadable_message(path: Seq<char>, reason: Seq<char>) -> Seq<char> {
    "Cannot read file '"@ + path + "': "@ + reason
}

/// The line for a voice in use, where there is one.
pub open spec fn voice_lines(voice: Option<Seq<char>>) -> Seq<NoticeView> {
    match voice {
        Some(name) => seq![NoticeView { kind: NoticeKind::Config, text: "Using voice: "@ + name }],
        None => Seq::empty(),
    }
}

/// The line for a rate in use, where there is one.
pub open spec fn rate_lines(rate: Option<u32>) -> Seq<NoticeView> {
    match rate {
        Some(wpm) => seq![
            NoticeView {
                kind: NoticeKind::Config,
                text: "Speaking rate: "@ + decimal(wpm as nat) + " words per minute"@,
            },
        ],
        None => Seq::empty(),
    }
}

/// The lines shown once the file is read: that it is loaded, how many bytes
/// its text takes in UTF-8, that speech begins, and the voice and the rate
/// in use.
pub open spec fn loaded_lines(config: AppConfigView, text: Seq<char>) -> Seq<NoticeView> {
    seq![
        NoticeView { kind: NoticeKind::Success, text: "File loaded successfully!"@ },
        NoticeView {
            kind: NoticeKind::Stat,
            text: "Content length: "@ + decimal(encode_utf8(text).len()) + " characters"@,
        },
        NoticeView { kind: NoticeKind::Info, text: "Converting text to speech..."@ },
    ] + voice_lines(config.speech_config.voice) + rate_lines(config.speech_config.rate)
}

/// What is to be done once the file is read: the lines to show, then the
/// command to run.
#[derive(Clone, Debug, PartialEq, Eq)]
pub struct SpeechJob {
    pub notices: Vec<Notice>,
    pub command: ToolCommand,
}

/// A [`SpeechJob`] as contracts see it.
pub struct SpeechJobView {
    pub notices: Seq<NoticeView>,
    pub command: ToolCommandView,
}

impl View for SpeechJob {
    type V = SpeechJobView;

    open spec fn view(&self) -> SpeechJobView {
        SpeechJobView { notices: self.notices.deep_view(), command: self.command@ }
    }
}

/// What an attempt to read the file as contracts see it: the text, or the
/// failure of the system.
pub open spec fn read_view(read: Result<String, OsError>) -> Result<Seq<char>, OsErrorView> {
    match read {
        Ok(text) => Ok(text@),
        Err(failure) => Err(failure@),
    }
}

/// What follows the reading of the file. A file that could not be read is a
/// file error, whatever the reason. A file that was read is spoken whole: the
/// lines to show, and the command by which the engine speaks its text.
pub open spec fn speech_job(
    platform: Platform,
    config: AppConfigView,
    read: Result<Seq<char>, OsErrorView>,
) -> Result<SpeechJobView, TtsErrorView> {
    match read {
        Err(failure) => Err(
            TtsErrorView {
                kind: ErrorKind::File,
                message: unreadable_message(config.file_path, failure.message),
            },
        ),
        Ok(text) => Ok(
            SpeechJobView {
                notices: loaded_lines(config, text),
                command: command_to_speak(platform, text, config.speech_config),
            },
        ),
    }
}

/// Decides what follows the reading of the file at `config.file_path`,
/// given what the attempt to read it brought.
pub fn read_and_speak_file<E: TextToSpeech>(
    config: &AppConfig,
    engine: &E,
    read: Result<String, OsError>,
) -> (result: TtsResult<SpeechJob>)
    ensures
        result_view(result) == speech_job(engine.platform(), config@, read_view(read)),
{
    let text = match read {
        Ok(text) => text,
        Err(failure) => {
            let mut message = String::from_str("Cannot read file '");
            message.append(config.file_path.as_str());
            message.append("': ");
            message.append(failure.message.as_str());
            return Err(TtsError::FileError(message));
        },
    };
    let mut notices: Vec<Notice> = Vec::new();
    notices.push(
        Notice { kind: NoticeKind::Success, text: String::from_str("File loaded successfully!") },
    );
    let length: usize = text.as_str().as_bytes().len();
    let mut figure = String::from_str("Content length: ");
    figure.append(decimal_string(length as u64).as_str());
    figure.append(" characters");
    notices.push(Notice { kind: NoticeKind::Stat, text: figure });
    notices.push(
        Notice { kind: NoticeKind::Info, text: String::from_str("Converting text to speech...") },
    );
    assert(notices.deep_view() =~= seq![
        NoticeView { kind: NoticeKind::Success, text: "File loaded successfully!"@ },
        NoticeView {
            kind: NoticeKind::Stat,
            text: "Content length: "@ + decimal(encode_utf8(text@).len()) + " characters"@,
        },
        NoticeView { kind: NoticeKind::Info, text: "Converting text to speech..."@ },
    ]);
    let ghost fixed = notices.deep_view();
    if let Some(voice) = &config.speech_config.voice {
        let mut line = String::from_str("Using voice: ");
        line.append(voice.as_str());
        notices.push(Notice { kind: NoticeKind::Config, text: line });
    }
    assert(notices.deep_view() =~= fixed + voice_lines(config@.speech_config.voice));
    let ghost with_voice = notices.deep_view();
    if let Some(rate) = config.speech_config.rate {
        let mut line = String::from_str("Speaking rate: ");
        line.append(decimal_string(rate as u64).as_str());
        line.append(" words per minute");
        notices.push(Notice { kind: NoticeKind::Config, text: line });
    }
    assert(notices.deep_view() =~= with_voice + rate_lines(config@.speech_config.rate));
    let command = engine.speak_command(text.as_str(), &config.speech_config);
    Ok(SpeechJob { notices, command })
}

/// The line that closes a run that has spoken.
pub open spec fn spoken_line() -> NoticeView {
    NoticeView { kind: NoticeKind::Success, text: "Text-to-speech completed successfully!"@ }
}

/// What the run of the speech command comes to: the closing line where the
/// engine finds that it has spoken, the engine's error where it has not.
pub open spec fn speech_end(
    platform: Platform,
    config: AppConfigView,
    run: Result<ProcessOutputView, OsErrorView>,
) -> Result<NoticeView, TtsErrorView> {
    match speaking_outcome(platform, config.speech_config, run) {
        Ok(_) => Ok(spoken_line()),
        Err(error) => Err(error),
    }
}

/// Decides how the run ends, given what the speech command brought.
pub fn finish_speaking<E: TextToSpeech>(
    config: &AppConfig,
    engine: &E,
    run: ToolRun,
) -> (result: TtsResult<Notice>)
    ensures
        result_view(result) == speech_end(engine.platform(), config@, run_view(run)),
{
    match engine.speak_result(&config.speech_config, run) {
        Ok(()) => Ok(
            Notice {
                kind: NoticeKind::Success,
                text: String::from_str("Text-to-speech completed successfully!"),
            },
        ),
        Err(error) => Err(error),
    }
}

/// The line that names the package, its version and its edition.
pub open spec fn package_line(
    name: Seq<char>,
    version: Seq<char>,
    edition: Seq<char>,
) -> NoticeView {
    NoticeView {
        kind: NoticeKind::Config,
        text: "Package: "@ + name + " v"@ + version + " ("@ + edition + ")"@,
    }
}

/// The line that names the package, its version and its edition, as the
/// package's `Cargo.toml` gives them.
pub fn package_notice(name: &str, version: &str, edition: &str) -> (notice: Notice)
    ensures
        notice@ == package_line(name@, version@, edition@),
{
    let mut text = String::from_str("Package: ");
    text.append(name);
    text.append(" v");
    text.append(version);
    text.append(" (");
    text.append(edition);
    text.append(")");
    Notice { kind: NoticeKind::Config, text }
}

/// The line that reports a failed run: the error as it is displayed.
pub fn failure_notice(error: &TtsError) -> (notice: Notice)
    ensures
        notice@ == (NoticeView { kind: NoticeKind::Error, text: displayed(error@) }),
{
    Notice { kind: NoticeKind::Error, text: error.to_string() }
}

/// The status with which the program ends: 0 for a run that succeeded, 1
/// for one that failed.
pub fn exit_code(outcome: &TtsResult<()>) -> (code: i32)
    ensures
        code == (if outcome is Ok {
            0i32
        } else {
            1i32
        }),
{
    match outcome {
        Ok(_) => 0,
        Err(_) => 1,
    }
}

} // verus!
