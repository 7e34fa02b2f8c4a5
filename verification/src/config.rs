//! The settings of one run, validated from the parsed command line.

use crate::errors::{result_view, ErrorKind, TtsError, TtsErrorView, TtsResult};
use crate::text::{decimal, decimal_string, optional_text};
use crate::tts::{
    rate_in_range, SpeechConfig, SpeechConfigView, DEFAULT_RATE, MAX_RATE, MIN_RATE,
};
use vstd::prelude::*;
use vstd::string::*;

verus! {

/// What the command line held, once parsed: one value for each option.
#[derive(Clone, Debug, PartialEq, Eq)]
pub struct ParsedArgs {
    /// The path of the text file to read; `sample.txt` where none was given.
    pub file: String,
    /// The name of the voice, where one was given.
    pub voice: Option<String>,
    /// The speaking rate in words per minute, where one was given.
    pub rate: Option<u32>,
    /// Whether the list of voices was asked for.
    pub list_voices: bool,
    /// Whether the usage guide was asked for.
    pub bighelp: bool,
}

/// A [`ParsedArgs`] as contracts see it.
pub struct ParsedArgsView {
    pub file: Seq<char>,
    pub voice: Option<Seq<char>>,
    pub rate: Option<u32>,
    pub list_voices: bool,
    pub bighelp: bool,
}

impl View for ParsedArgs {
    type V = ParsedArgsView;

    open spec fn view(&self) -> ParsedArgsView {
        ParsedArgsView {
            file: self.file@,
            voice: optional_text(self.voice),
            rate: self.rate,
            list_voices: self.list_voices,
            bighelp: self.bighelp,
        }
    }
}

/// The settings of one run.
#[derive(Clone, Debug, PartialEq, Eq)]
pub struct AppConfig {
    /// The path of the text file to read.
    pub file_path: String,
    /// How to speak.
    pub speech_config: SpeechConfig,
    /// Whether to list the voices instead of speaking.
    pub list_voices: bool,
    /// Whether to show the usage guide instead of speaking.
    pub show_help: bool,
}

/// An [`AppConfig`] as contracts see it.
pub struct AppConfigView {
    pub file_path: Seq<char>,
    pub speech_config: SpeechConfigView,
    pub list_voices: bool,
    pub show_help: bool,
}

impl View for AppConfig {
    type V = AppConfigView;

    open spec fn view(&self) -> AppConfigView {
        AppConfigView {
            file_path: self.file_path@,
            speech_config: self.speech_config@,
            list_voices: self.list_voices,
            show_help: self.show_help,
        }
    }
}

/// The explanation of a rate that is not accepted: it names the rate and the
/// range.
pub open spec fn rate_error_message(rate: u32) -> Seq<char> {
    "Speech rate "@ + decimal(rate as nat) + " is outside valid range (50-1000 words per minute)"@
}

/// What validating a rate comes to: nothing for a rate from 50 to 1000,
/// both ends included, and a configuration error for any other.
pub open spec fn rate_validation(rate: u32) -> Result<(), TtsErrorView> {
    if rate_in_range(rate as int) {
        Ok(())
    } else {
        Err(TtsErrorView { kind: ErrorKind::Config, message: rate_error_message(rate) })
    }
}

/// The settings that a command line asks for. The speech settings are the
/// default ones but for what the command line gives: its voice, and its rate
/// where it gives one.
pub open spec fn settings_of(args: ParsedArgsView) -> AppConfigView {
    AppConfigView {
        file_path: args.file,
        speech_config: SpeechConfigView {
            voice: args.voice,
            rate: Some(
                match args.rate {
                    Some(rate) => rate,
                    None => DEFAULT_RATE,
                },
            ),
        },
        list_voices: args.list_voices,
        show_help: args.bighelp,
    }
}

/// What a command line comes to: its settings, or the error of its rate
/// where it gives one that is not accepted.
pub open spec fn parsed_settings(args: ParsedArgsView) -> Result<AppConfigView, TtsErrorView> {
    match args.rate {
        Some(rate) if !rate_in_range(rate as int) => Err(
            TtsErrorView { kind: ErrorKind::Config, message: rate_error_message(rate) },
        ),
        _ => Ok(settings_of(args)),
    }
}

/// A command line that names neither a voice nor a rate gives the default
/// speech settings: no voice, and 200 words per minute.
pub proof fn lemma_bare_command_line_gives_default_speech(args: ParsedArgsView)
    requires
        args.voice is None,
        args.rate is None,
    ensures
        parsed_settings(args) matches Ok(config) && config.speech_config == (SpeechConfigView {
            voice: None,
            rate: Some(200u32),
        }),
{
}

/// A command line is accepted exactly when it gives no rate or one from 50
/// to 1000, and the settings that it comes to are then valid.
pub proof fn lemma_accepted_settings_are_valid(args: ParsedArgsView)
    ensures
        parsed_settings(args) is Ok <==> (args.rate matches Some(rate) ==> 50 <= rate <= 1000),
        parsed_settings(args) matches Ok(config) ==> config.speech_config.valid(),
{
}

impl AppConfig {
    /// The settings of the run for a parsed command line. A rate outside the
    /// accepted range is refused.
    pub fn from_args(args: ParsedArgs) -> (result: TtsResult<AppConfig>)
        ensures
            result_view(result) == parsed_settings(args@),
            result matches Ok(config) ==> config@.speech_config.valid(),
    {
        AppConfig::parse_matches(&args)
    }

    /// Fills in the settings, starting from the default speech settings: the
    /// voice is the one given, and the rate is the one given, once validated,
    /// or else the default.
    pub fn parse_matches(matches: &ParsedArgs) -> (result: TtsResult<AppConfig>)
        ensures
            result_view(result) == parsed_settings(matches@),
            result matches Ok(config) ==> config@.speech_config.valid(),
    {
        let mut speech_config = SpeechConfig::default();
        speech_config.voice = matches.voice.clone();
        if let Some(rate) = matches.rate {
            match AppConfig::validate_rate(rate) {
                Ok(()) => {
                    speech_config.rate = Some(rate);
                },
                Err(error) => {
                    return Err(error);
                },
            }
        }
        Ok(
            AppConfig {
                file_path: matches.file.clone(),
                speech_config,
                list_voices: matches.list_voices,
                show_help: matches.bighelp,
            },
        )
    }

    /// Accepts a rate from 50 to 1000 words per minute, both ends included,
    /// and refuses any other with a configuration error.
    pub fn validate_rate(rate: u32) -> (result: TtsResult<()>)
        ensures
            result_view(result) == rate_validation(rate),
            result is Ok <==> 50 <= rate <= 1000,
    {
        if rate < MIN_RATE || rate > MAX_RATE {
            let mut message = String::from_str("Speech rate ");
            message.append(decimal_string(rate as u64).as_str());
            message.append(" is outside valid range (50-1000 words per minute)");
            return Err(TtsError::ConfigError(message));
        }
        Ok(())
    }
}

} // verus!
