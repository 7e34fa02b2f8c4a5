//! The commands that speak a text and list the voices, one for each kind
//! of host.

use crate::process::{ToolCommand, ToolCommandView};
use crate::script::{
    build_list_voices_script, build_speak_script, list_voices_script, sapi_rate, speak_script,
    speak_statement, voice_statement,
};
use crate::text::{decimal, decimal_string, optional_text, signed_decimal};
use crate::tts::{host_platform, Platform, SpeechConfig, SpeechConfigView};
use vstd::prelude::*;
use vstd::string::*;

verus! {

/// The program that speaks on this kind of host.
pub open spec fn tool_program(platform: Platform) -> Seq<char> {
    match platform {
        Platform::MacOs => "say"@,
        Platform::Windows => "powershell"@,
        Platform::Linux => "espeak"@,
    }
}

/// A flag and its value, or nothing where there is no value.
pub open spec fn flag_args(flag: Seq<char>, value: Option<Seq<char>>) -> Seq<Seq<char>> {
    match value {
        Some(value) => seq![flag, value],
        None => Seq::empty(),
    }
}

/// A rate as it is written on a command line.
pub open spec fn rate_text(rate: Option<u32>) -> Option<Seq<char>> {
    match rate {
        Some(wpm) => Some(decimal(wpm as nat)),
        None => None,
    }
}

/// The arguments with which the speech tool speaks `text`. `say` and
/// `espeak` take the voice and the rate as flags and the text last;
/// PowerShell takes a script.
pub open spec fn speak_args(
    platform: Platform,
    text: Seq<char>,
    config: SpeechConfigView,
) -> Seq<Seq<char>> {
    let voice = config.voice;
    let rate = rate_text(config.rate);
    match platform {
        Platform::MacOs => flag_args("-v"@, voice) + flag_args("-r"@, rate) + seq![text],
        Platform::Windows => seq!["-Command"@, speak_script(text, config.voice, config.rate)],
        Platform::Linux => flag_args("-v"@, voice) + flag_args("-s"@, rate) + seq![text],
    }
}

/// The command that speaks `text` on this kind of host.
pub open spec fn command_to_speak(
    platform: Platform,
    text: Seq<char>,
    config: SpeechConfigView,
) -> ToolCommandView {
    ToolCommandView { program: tool_program(platform), args: speak_args(platform, text, config) }
}

/// The command that lists the installed voices on this kind of host.
pub open spec fn command_to_list_voices(platform: Platform) -> ToolCommandView {
    ToolCommandView {
        program: tool_program(platform),
        args: match platform {
            Platform::MacOs => seq!["-v"@, "?"@],
            Platform::Windows => seq!["-Command"@, list_voices_script()],
            Platform::Linux => seq!["--voices"@],
        },
    }
}

/// `say` and `espeak` get the text as their last argument, as it is, after
/// the flags: two arguments for the voice and two for the rate, where there
/// is one, and none where there is not.
pub proof fn lemma_text_is_the_last_argument(
    platform: Platform,
    text: Seq<char>,
    config: SpeechConfigView,
)
    requires
        platform != Platform::Windows,
    ensures
        ({
            let args = command_to_speak(platform, text, config).args;
            let for_voice: int = if config.voice is Some { 2 } else { 0 };
            let for_rate: int = if config.rate is Some { 2 } else { 0 };
            &&& args.len() == for_voice + for_rate + 1
            &&& args.last() == text
            &&& config.voice matches Some(name) ==> args[0] == "-v"@ && args[1] == name
        }),
{
}

/// On a host classified as Windows, a rate in words per minute reaches the
/// speech API on its own scale: the script sets the rate to
/// `(rate - 200) / 50` rounded to the nearest whole number and kept between
/// -10 and 10.
pub proof fn lemma_windows_rate_is_on_the_api_scale(
    os: Seq<char>,
    text: Seq<char>,
    config: SpeechConfigView,
    rate: u32,
)
    requires
        host_platform(os) == Platform::Windows,
        config.rate == Some(rate),
    ensures
        command_to_speak(host_platform(os), text, config).program == "powershell"@,
        command_to_speak(host_platform(os), text, config).args == seq![
            "-Command"@,
            "Add-Type -AssemblyName System.Speech; "@
                + "$synth = New-Object System.Speech.Synthesis.SpeechSynthesizer; "@
                + voice_statement(config.voice)
                + ("$synth.Rate = "@ + signed_decimal(sapi_rate(rate as int)) + "; "@)
                + speak_statement(text),
        ],
        -10 <= sapi_rate(rate as int) <= 10,
{
}

/// Appends a flag and its value to `args`, or nothing where there is no
/// value.
fn push_flag(args: &mut Vec<String>, flag: &str, value: Option<String>)
    ensures
        final(args).deep_view() == old(args).deep_view() + flag_args(flag@, optional_text(value)),
{
    let ghost before = args.deep_view();
    match value {
        Some(value) => {
            let ghost value_view = value@;
            args.push(String::from_str(flag));
            args.push(value);
            assert(args.deep_view() =~= before + seq![flag@, value_view]);
        },
        None => {
            assert(args.deep_view() =~= before + Seq::<Seq<char>>::empty());
        },
    }
}

/// The command of a tool that takes the voice and the rate as flags and the
/// text as its last argument.
fn flagged_command(
    program: &str,
    voice_flag: &str,
    rate_flag: &str,
    text: &str,
    config: &SpeechConfig,
) -> (command: ToolCommand)
    ensures
        command@.program == program@,
        command@.args == flag_args(voice_flag@, config@.voice)
            + flag_args(rate_flag@, rate_text(config@.rate)) + seq![text@],
{
    let mut args: Vec<String> = Vec::new();
    push_flag(&mut args, voice_flag, config.voice.clone());
    let rate = match config.rate {
        Some(wpm) => Some(decimal_string(wpm as u64)),
        None => None,
    };
    push_flag(&mut args, rate_flag, rate);
    let ghost before = args.deep_view();
    args.push(String::from_str(text));
    assert(args.deep_view() =~= before + seq![text@]);
    ToolCommand { program: String::from_str(program), args }
}

/// The command of a tool that takes one or two arguments as they are.
fn plain_command(program: &str, first: String, second: Option<String>) -> (command: ToolCommand)
    ensures
        command@.program == program@,
        command@.args == (match second {
            Some(second) => seq![first@, second@],
            None => seq![first@],
        }),
{
    let mut args: Vec<String> = Vec::new();
    let ghost first_view = first@;
    args.push(first);
    match second {
        Some(second) => {
            let ghost second_view = second@;
            args.push(second);
            assert(args.deep_view() =~= seq![first_view, second_view]);
        },
        None => {
            assert(args.deep_view() =~= seq![first_view]);
        },
    }
    ToolCommand { program: String::from_str(program), args }
}

/// Builds the command that speaks `text` on this kind of host as `config`
/// asks.
pub fn speak_command(
    platform: Platform,
    text: &str,
    config: &SpeechConfig,
) -> (command: ToolCommand)
    ensures
        command@ == command_to_speak(platform, text@, config@),
{
    match platform {
        Platform::MacOs => flagged_command("say", "-v", "-r", text, config),
        Platform::Windows => {
            let script = build_speak_script(text, &config.voice, config.rate);
            plain_command("powershell", String::from_str("-Command"), Some(script))
        },
        Platform::Linux => flagged_command("espeak", "-v", "-s", text, config),
    }
}

/// Builds the command that lists the installed voices on this kind of host.
pub fn list_voices_command(platform: Platform) -> (command: ToolCommand)
    ensures
        command@ == command_to_list_voices(platform),
{
    match platform {
        Platform::MacOs => {
            plain_command("say", String::from_str("-v"), Some(String::from_str("?")))
        },
        Platform::Windows => {
            let script = build_list_voices_script();
            plain_command("powershell", String::from_str("-Command"), Some(script))
        },
        Platform::Linux => plain_command("espeak", String::from_str("--voices"), None),
    }
}

} // verus!
