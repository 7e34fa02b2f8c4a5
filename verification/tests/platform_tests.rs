use t2v::command::{list_voices_command, speak_command};
use t2v::errors::{OsError, TtsError};
use t2v::outcome::{list_voices_result, speak_result};
use t2v::process::{ProcessOutput, ToolRun};
use t2v::text::read_output;
use t2v::tts::{LinuxTts, MacOsTts, Platform, SpeechConfig, TextToSpeech, WindowsTts};

fn settings() -> SpeechConfig {
    SpeechConfig { voice: Some("Daniel".to_string()), rate: Some(140) }
}

fn failed(stderr: &str) -> ToolRun {
    Ok(ProcessOutput { success: false, stdout: Vec::new(), stderr: stderr.as_bytes().to_vec() })
}

#[test]
fn commands_by_platform_are_those_of_the_engines() {
    let config = settings();
    assert_eq!(
        speak_command(Platform::MacOs, "a 'b' c", &config),
        MacOsTts.speak_command("a 'b' c", &config)
    );
    assert_eq!(
        speak_command(Platform::Windows, "a 'b' c", &config),
        WindowsTts.speak_command("a 'b' c", &config)
    );
    assert_eq!(
        speak_command(Platform::Linux, "a 'b' c", &config),
        LinuxTts.speak_command("a 'b' c", &config)
    );
    assert_eq!(list_voices_command(Platform::MacOs), MacOsTts.list_voices_command());
    assert_eq!(list_voices_command(Platform::Windows), WindowsTts.list_voices_command());
    assert_eq!(list_voices_command(Platform::Linux), LinuxTts.list_voices_command());
}

#[test]
fn speak_commands_by_platform() {
    let config = settings();
    let mac = speak_command(Platform::MacOs, "Good news", &config);
    assert_eq!(mac.program, "say");
    assert_eq!(mac.args, ["-v", "Daniel", "-r", "140", "Good news"]);
    let linux = speak_command(Platform::Linux, "Good news", &config);
    assert_eq!(linux.program, "espeak");
    assert_eq!(linux.args, ["-v", "Daniel", "-s", "140", "Good news"]);
    let windows = speak_command(Platform::Windows, "Good news", &config);
    assert_eq!(windows.program, "powershell");
    assert_eq!(windows.args.len(), 2);
    assert_eq!(windows.args[0], "-Command");
    assert!(windows.args[1].contains("$synth.SelectVoice('Daniel'); "));
    assert!(windows.args[1].contains("$synth.Rate = -1; "));
    assert!(windows.args[1].ends_with("$synth.Speak('Good news');"));
}

#[test]
fn results_by_platform_are_those_of_the_engines() {
    let config = settings();
    for complaint in ["", "invalid voice", "Cannot find voice", "unknown voice", "boom"] {
        assert_eq!(
            speak_result(Platform::MacOs, &config, failed(complaint)),
            MacOsTts.speak_result(&config, failed(complaint))
        );
        assert_eq!(
            speak_result(Platform::Windows, &config, failed(complaint)),
            WindowsTts.speak_result(&config, failed(complaint))
        );
        assert_eq!(
            speak_result(Platform::Linux, &config, failed(complaint)),
            LinuxTts.speak_result(&config, failed(complaint))
        );
        assert_eq!(
            list_voices_result(Platform::Linux, failed(complaint)),
            LinuxTts.list_voices_result(failed(complaint))
        );
    }
}

#[test]
fn a_phrase_of_another_platform_is_an_ordinary_failure() {
    let config = settings();
    assert_eq!(
        speak_result(Platform::MacOs, &config, failed("unknown voice")),
        Err(TtsError::SpeechError("macOS TTS failed: unknown voice".to_string()))
    );
    assert_eq!(
        speak_result(Platform::Linux, &config, failed("invalid voice")),
        Err(TtsError::SpeechError("Linux TTS failed: invalid voice".to_string()))
    );
    assert_eq!(
        speak_result(Platform::Windows, &config, failed("voice not available")),
        Err(TtsError::SpeechError("Windows TTS failed: voice not available".to_string()))
    );
}

#[test]
fn a_tool_that_was_not_started_fails_alike_on_every_platform() {
    for platform in [Platform::MacOs, Platform::Windows, Platform::Linux] {
        let missing: ToolRun = Err(OsError { not_found: true, message: "gone".to_string() });
        assert_eq!(
            speak_result(platform, &settings(), missing),
            Err(TtsError::FileError("gone".to_string()))
        );
        let denied: ToolRun = Err(OsError { not_found: false, message: "denied".to_string() });
        assert_eq!(
            list_voices_result(platform, denied),
            Err(TtsError::SystemError("denied".to_string()))
        );
    }
}

#[test]
fn output_is_read_as_utf8() {
    assert_eq!(read_output(b""), "");
    assert_eq!(read_output(b"plain"), "plain");
    assert_eq!(read_output("Grüße, 世界".as_bytes()), "Grüße, 世界");
}

#[test]
fn ill_formed_bytes_become_replacement_characters() {
    assert_eq!(read_output(b"\xff"), "\u{fffd}");
    assert_eq!(read_output(b"a\xc3"), "a\u{fffd}");
    assert_eq!(read_output(b"a\xf0\x9f\x98b"), "a\u{fffd}b");
    assert_eq!(read_output(b"\xed\xa0\x80"), "\u{fffd}\u{fffd}\u{fffd}");
}
