//! The speech settings, the three engines and the choice among them.
//!
//! An engine starts no process. It says which command speaks a text or
//! lists the voices, and it says what the outcome of that command means.

use crate::command::{command_to_list_voices, command_to_speak, list_voices_command, speak_command};
use crate::errors::{result_view, TtsResult};
use crate::outcome::{list_voices_result, listing_outcome, speak_result, speaking_outcome};
use crate::process::{run_view, ToolCommand, ToolRun};
use crate::text::{optional_text, same_text};
use vstd::prelude::*;
use vstd::string::*;

verus! {

/// The slowest speaking rate that is accepted, in words per minute.
pub const MIN_RATE: u32 = 50;

/// The fastest speaking rate that is accepted, in words per minute.
pub const MAX_RATE: u32 = 1000;

/// The speaking rate of the default settings, in words per minute.
pub const DEFAULT_RATE: u32 = 200;

/// Whether `rate`, in words per minute, is a speaking rate that is accepted.
pub open spec fn rate_in_range(rate: int) -> bool {
    MIN_RATE <= rate <= MAX_RATE
}

/// How to speak: with which voice and how fast. An absent voice or rate
/// leaves the choice to the speech tool.
#[derive(Clone, Debug, PartialEq, Eq)]
pub struct SpeechConfig {
    /// The name of the voice.
    pub voice: Option<String>,
    /// The speaking rate in words per minute.
    pub rate: Option<u32>,
}

/// A [`SpeechConfig`] as contracts see it.
pub struct SpeechConfigView {
    pub voice: Option<Seq<char>>,
    pub rate: Option<u32>,
}

impl View for SpeechConfig {
    type V = SpeechConfigView;

    open spec fn view(&self) -> SpeechConfigView {
        SpeechConfigView { voice: optional_text(self.voice), rate: self.rate }
    }
}

impl SpeechConfigView {
    /// Whether the rate, where there is one, is accepted.
    pub open spec fn valid(self) -> bool {
        self.rate matches Some(rate) ==> rate_in_range(rate as int)
    }
}

impl Default for SpeechConfig {
    /// No voice, and the ordinary rate of 200 words per minute.
    fn default() -> (config: SpeechConfig)
        ensures
            config@ == (SpeechConfigView { voice: None, rate: Some(200u32) }),
            config@.valid(),
    {
        SpeechConfig { voice: None, rate: Some(DEFAULT_RATE) }
    }
}

/// The three kinds of host that the program tells apart.
#[derive(Clone, Copy, Debug, PartialEq, Eq, Structural)]
pub enum Platform {
    MacOs,
    Windows,
    Linux,
}

/// The kind of a host, by the name of its operating system: macOS for
/// `macos`, Windows for `windows`, and Linux for every other name.
pub open spec fn host_platform(os: Seq<char>) -> Platform {
    if os == "macos"@ {
        Platform::MacOs
    } else if os == "windows"@ {
        Platform::Windows
    } else {
        Platform::Linux
    }
}

/// A speech engine: the commands of one speech tool and the reading of
/// their outcomes. The caller runs each command, waits for it to end and
/// hands back what it captured.
pub trait TextToSpeech {
    /// The kind of host whose speech tool this engine drives.
    spec fn platform(&self) -> Platform;

    /// The command that speaks `text` as `config` asks.
    fn speak_command(&self, text: &str, config: &SpeechConfig) -> (command: ToolCommand)
        ensures
            command@ == command_to_speak(self.platform(), text@, config@),
    ;

    /// What came of running the command that speaks: success only where the
    /// tool ended with status zero.
    fn speak_result(&self, config: &SpeechConfig, run: ToolRun) -> (result: TtsResult<()>)
        ensures
            result_view(result) == speaking_outcome(self.platform(), config@, run_view(run)),
    ;

    /// The command that lists the installed voices.
    fn list_voices_command(&self) -> (command: ToolCommand)
        ensures
            command@ == command_to_list_voices(self.platform()),
    ;

    /// What came of running the command that lists the voices: on success,
    /// the text that the tool printed, unchanged.
    fn list_voices_result(&self, run: ToolRun) -> (result: TtsResult<String>)
        ensures
            result_view(result) == listing_outcome(self.platform(), run_view(run)),
    ;
}

/// The engine for Windows, which speaks through PowerShell and the speech
/// API.
#[derive(Clone, Copy, Debug, PartialEq, Eq, Structural)]
pub struct WindowsTts;

impl TextToSpeech for WindowsTts {
    open spec fn platform(&self) -> Platform {
        Platform::Windows
    }

    fn speak_command(&self, text: &str, config: &SpeechConfig) -> (command: ToolCommand) {
        speak_command(Platform::Windows, text, config)
    }

    fn speak_result(&self, config: &SpeechConfig, run: ToolRun) -> (result: TtsResult<()>) {
        speak_result(Platform::Windows, config, run)
    }

    fn list_voices_command(&self) -> (command: ToolCommand) {
        list_voices_command(Platform::Windows)
    }

    fn list_voices_result(&self, run: ToolRun) -> (result: TtsResult<String>) {
        list_voices_result(Platform::Windows, run)
    }
}

/// The engine for macOS, which speaks through `say`.
#[derive(Clone, Copy, Debug, PartialEq, Eq, Structural)]
pub struct MacOsTts;

impl TextToSpeech for MacOsTts {
    open spec fn platform(&self) -> Platform {
        Platform::MacOs
    }

    fn speak_command(&self, text: &str, config: &SpeechConfig) -> (command: ToolCommand) {
        speak_command(Platform::MacOs, text, config)
    }

    fn speak_result(&self, config: &SpeechConfig, run: ToolRun) -> (result: TtsResult<()>) {
        speak_result(Platform::MacOs, config, run)
    }

    fn list_voices_command(&self) -> (command: ToolCommand) {
        list_voices_command(Platform::MacOs)
    }

    fn list_voices_result(&self, run: ToolRun) -> (result: TtsResult<String>) {
        list_voices_result(Platform::MacOs, run)
    }
}

/// The engine for Linux and for every other host, which speaks through
/// `espeak`.
#[derive(Clone, Copy, Debug, PartialEq, Eq, Structural)]
pub struct LinuxTts;

impl TextToSpeech for LinuxTts {
    open spec fn platform(&self) -> Platform {
        Platform::Linux
    }

    fn speak_command(&self, text: &str, config: &SpeechConfig) -> (command: ToolCommand) {
        speak_command(Platform::Linux, text, config)
    }

    fn speak_result(&self, config: &SpeechConfig, run: ToolRun) -> (result: TtsResult<()>) {
        speak_result(Platform::Linux, config, run)
    }

    fn list_voices_command(&self) -> (command: ToolCommand) {
        list_voices_command(Platform::Linux)
    }

    fn list_voices_result(&self, run: ToolRun) -> (result: TtsResult<String>) {
        list_voices_result(Platform::Linux, run)
    }
}

/// The engine of a run: one of the three, chosen once.
#[derive(Clone, Copy, Debug, PartialEq, Eq, Structural)]
pub enum Engine {
    MacOs(MacOsTts),
    Windows(WindowsTts),
    Linux(LinuxTts),
}

/// The engine for a kind of host.
pub open spec fn engine_for(platform: Platform) -> Engine {
    match platform {
        Platform::MacOs => Engine::MacOs(MacOsTts),
        Platform::Windows => Engine::Windows(WindowsTts),
        Platform::Linux => Engine::Linux(LinuxTts),
    }
}

impl TextToSpeech for Engine {
    open spec fn platform(&self) -> Platform {
        match *self {
            Engine::MacOs(engine) => engine.platform(),
            Engine::Windows(engine) => engine.platform(),
            Engine::Linux(engine) => engine.platform(),
        }
    }

    fn speak_command(&self, text: &str, config: &SpeechConfig) -> (command: ToolCommand) {
        match self {
            Engine::MacOs(engine) => engine.speak_command(text, config),
            Engine::Windows(engine) => engine.speak_command(text, config),
            Engine::Linux(engine) => engine.speak_command(text, config),
        }
    }

    fn speak_result(&self, config: &SpeechConfig, run: ToolRun) -> (result: TtsResult<()>) {
        match self {
            Engine::MacOs(engine) => engine.speak_result(config, run),
            Engine::Windows(engine) => engine.speak_result(config, run),
            Engine::Linux(engine) => engine.speak_result(config, run),
        }
    }

    fn list_voices_command(&self) -> (command: ToolCommand) {
        match self {
            Engine::MacOs(engine) => engine.list_voices_command(),
            Engine::Windows(engine) => engine.list_voices_command(),
            Engine::Linux(engine) => engine.list_voices_command(),
        }
    }

    fn list_voices_result(&self, run: ToolRun) -> (result: TtsResult<String>) {
        match self {
            Engine::MacOs(engine) => engine.list_voices_result(run),
            Engine::Windows(engine) => engine.list_voices_result(run),
            Engine::Linux(engine) => engine.list_voices_result(run),
        }
    }
}

/// Picks the engine for the host by the name of its operating system:
/// `macos` gets the macOS engine, `windows` the Windows engine, and every
/// other name the Linux engine.
pub fn create_tts_engine(os: &str) -> (engine: Engine)
    ensures
        engine == engine_for(host_platform(os@)),
        engine.platform() == host_platform(os@),
{
    if same_text(os, "macos") {
        Engine::MacOs(MacOsTts)
    } else if same_text(os, "windows") {
        Engine::Windows(WindowsTts)
    } else {
        Engine::Linux(LinuxTts)
    }
}

/// Every host gets exactly one of the three engines, by the name of its
/// operating system alone: the macOS engine for `macos`, the Windows engine
/// for `windows`, the Linux engine for every other name.
pub proof fn lemma_one_engine_per_host(os: Seq<char>)
    ensures
        engine_for(host_platform(os)) == Engine::MacOs(MacOsTts) <==> os == "macos"@,
        engine_for(host_platform(os)) == Engine::Windows(WindowsTts) <==> os == "windows"@,
        engine_for(host_platform(os)) == Engine::Linux(LinuxTts) <==> (os != "macos"@
            && os != "windows"@),
        engine_for(host_platform(os)).platform() == host_platform(os),
{
    reveal_strlit("macos");
    reveal_strlit("windows");
    assert("macos"@.len() != "windows"@.len());
}

} // verus!
