use t2v::config::{AppConfig, ParsedArgs};
use t2v::errors::{OsError, TtsError};
use t2v::process::{ProcessOutput, ToolCommand, ToolRun};
use t2v::session::{
    exit_code, failure_notice, finish_speaking, package_notice, read_and_speak_file,
    reading_notice, run_app, Mode, Notice, NoticeKind,
};
use t2v::tts::{create_tts_engine, LinuxTts, MacOsTts, SpeechConfig, TextToSpeech, WindowsTts};

fn settings(file: &str, voice: Option<&str>, rate: Option<u32>) -> AppConfig {
    AppConfig {
        file_path: file.to_string(),
        speech_config: SpeechConfig { voice: voice.map(|v| v.to_string()), rate },
        list_voices: false,
        show_help: false,
    }
}

fn notice(kind: NoticeKind, text: &str) -> Notice {
    Notice { kind, text: text.to_string() }
}

fn exited(success: bool, stderr: &[u8]) -> ToolRun {
    Ok(ProcessOutput { success, stdout: Vec::new(), stderr: stderr.to_vec() })
}

#[test]
fn a_run_lists_voices_before_anything_else() {
    let mut config = settings("sample.txt", None, Some(200));
    config.list_voices = true;
    assert_eq!(run_app(&config), Mode::ListVoices);
    config.show_help = true;
    assert_eq!(run_app(&config), Mode::ListVoices);
}

#[test]
fn a_run_shows_the_guide_when_asked() {
    let mut config = settings("sample.txt", None, Some(200));
    config.show_help = true;
    assert_eq!(run_app(&config), Mode::ShowHelp);
}

#[test]
fn a_run_speaks_by_default() {
    assert_eq!(run_app(&settings("sample.txt", None, Some(200))), Mode::Speak);
}

#[test]
fn the_reading_of_the_file_is_announced() {
    assert_eq!(
        reading_notice(&settings("notes/today.txt", None, None)),
        notice(NoticeKind::Info, "Reading file: notes/today.txt")
    );
}

#[test]
fn an_unreadable_file_is_a_file_error() {
    let config = settings("missing.txt", None, Some(200));
    let gone = Err(OsError {
        not_found: true,
        message: "No such file or directory (os error 2)".to_string(),
    });
    assert_eq!(
        read_and_speak_file(&config, &MacOsTts, gone),
        Err(TtsError::FileError(
            "Cannot read file 'missing.txt': No such file or directory (os error 2)".to_string()
        ))
    );
    let denied = Err(OsError {
        not_found: false,
        message: "Permission denied (os error 13)".to_string(),
    });
    assert_eq!(
        read_and_speak_file(&config, &LinuxTts, denied),
        Err(TtsError::FileError(
            "Cannot read file 'missing.txt': Permission denied (os error 13)".to_string()
        ))
    );
}

#[test]
fn a_file_that_was_read_is_spoken_with_all_lines_shown() {
    let config = settings("story.txt", Some("Victoria"), Some(180));
    let job = read_and_speak_file(&config, &MacOsTts, Ok("Once upon a time".to_string())).unwrap();
    assert_eq!(
        job.notices,
        vec![
            notice(NoticeKind::Success, "File loaded successfully!"),
            notice(NoticeKind::Stat, "Content length: 16 characters"),
            notice(NoticeKind::Info, "Converting text to speech..."),
            notice(NoticeKind::Config, "Using voice: Victoria"),
            notice(NoticeKind::Config, "Speaking rate: 180 words per minute"),
        ]
    );
    assert_eq!(
        job.command,
        MacOsTts.speak_command("Once upon a time", &config.speech_config)
    );
}

#[test]
fn lines_for_voice_and_rate_are_shown_only_when_set() {
    let bare = settings("a.txt", None, None);
    let job = read_and_speak_file(&bare, &LinuxTts, Ok(String::new())).unwrap();
    assert_eq!(
        job.notices,
        vec![
            notice(NoticeKind::Success, "File loaded successfully!"),
            notice(NoticeKind::Stat, "Content length: 0 characters"),
            notice(NoticeKind::Info, "Converting text to speech..."),
        ]
    );
    assert_eq!(
        job.command,
        ToolCommand { program: "espeak".to_string(), args: vec![String::new()] }
    );
    let voiced = settings("a.txt", Some("Alex"), None);
    let job = read_and_speak_file(&voiced, &LinuxTts, Ok("x".to_string())).unwrap();
    assert_eq!(job.notices.len(), 4);
    assert_eq!(job.notices[3], notice(NoticeKind::Config, "Using voice: Alex"));
    let paced = settings("a.txt", None, Some(50));
    let job = read_and_speak_file(&paced, &WindowsTts, Ok("x".to_string())).unwrap();
    assert_eq!(job.notices.len(), 4);
    assert_eq!(job.notices[3], notice(NoticeKind::Config, "Speaking rate: 50 words per minute"));
}

#[test]
fn content_length_counts_bytes() {
    let config = settings("a.txt", None, None);
    let job = read_and_speak_file(&config, &MacOsTts, Ok("héllo 日本".to_string())).unwrap();
    assert_eq!(job.notices[1], notice(NoticeKind::Stat, "Content length: 13 characters"));
}

#[test]
fn a_run_that_has_spoken_ends_with_a_closing_line() {
    let config = settings("a.txt", None, Some(200));
    assert_eq!(
        finish_speaking(&config, &MacOsTts, exited(true, b"")),
        Ok(notice(NoticeKind::Success, "Text-to-speech completed successfully!"))
    );
}

#[test]
fn a_run_that_failed_to_speak_ends_with_the_engine_error() {
    let config = settings("a.txt", Some("Nobody"), Some(200));
    assert_eq!(
        finish_speaking(&config, &LinuxTts, exited(false, b"unknown voice")),
        Err(TtsError::VoiceNotFound(
            "Voice 'Nobody' not found on Linux. Use --list-voices to see available options"
                .to_string()
        ))
    );
    assert_eq!(
        finish_speaking(&config, &LinuxTts, exited(false, b"no audio")),
        Err(TtsError::SpeechError("Linux TTS failed: no audio".to_string()))
    );
    let missing: ToolRun = Err(OsError { not_found: true, message: "not found".to_string() });
    assert_eq!(
        finish_speaking(&config, &LinuxTts, missing),
        Err(TtsError::FileError("not found".to_string()))
    );
}

#[test]
fn the_package_line_names_version_and_edition() {
    assert_eq!(
        package_notice("t2v", "0.3.1", "2021"),
        notice(NoticeKind::Config, "Package: t2v v0.3.1 (2021)")
    );
}

#[test]
fn a_failure_is_reported_as_it_is_displayed() {
    let error = TtsError::ConfigError("Speech rate 5 is outside valid range".to_string());
    assert_eq!(
        failure_notice(&error),
        notice(NoticeKind::Error, "Configuration error: Speech rate 5 is outside valid range")
    );
}

#[test]
fn exit_code_is_zero_only_on_success() {
    assert_eq!(exit_code(&Ok(())), 0);
    assert_eq!(exit_code(&Err(TtsError::FileError("x".to_string()))), 1);
    assert_eq!(exit_code(&Err(TtsError::SpeechError("x".to_string()))), 1);
    assert_eq!(exit_code(&Err(TtsError::VoiceNotFound("x".to_string()))), 1);
    assert_eq!(exit_code(&Err(TtsError::ConfigError("x".to_string()))), 1);
    assert_eq!(exit_code(&Err(TtsError::SystemError("x".to_string()))), 1);
}

#[test]
fn sample_file_is_spoken_with_default_settings() {
    let parsed = ParsedArgs {
        file: "sample.txt".to_string(),
        voice: None,
        rate: None,
        list_voices: false,
        bighelp: false,
    };
    let config = AppConfig::from_args(parsed).unwrap();
    assert_eq!(config.speech_config, SpeechConfig::default());
    assert_eq!(config.speech_config.rate, Some(200));
    assert_eq!(run_app(&config), Mode::Speak);
    assert_eq!(reading_notice(&config).text, "Reading file: sample.txt");

    for os in ["macos", "windows", "linux"] {
        let engine = create_tts_engine(os);
        let job = read_and_speak_file(&config, &engine, Ok("Hello world".to_string())).unwrap();
        assert_eq!(job.notices[1].text, "Content length: 11 characters");
        assert_eq!(job.notices.len(), 4);
        assert_eq!(job.notices[3].text, "Speaking rate: 200 words per minute");
        let expected = match os {
            "macos" => ToolCommand {
                program: "say".to_string(),
                args: vec!["-r".to_string(), "200".to_string(), "Hello world".to_string()],
            },
            "windows" => ToolCommand {
                program: "powershell".to_string(),
                args: vec![
                    "-Command".to_string(),
                    "Add-Type -AssemblyName System.Speech; \
                     $synth = New-Object System.Speech.Synthesis.SpeechSynthesizer; \
                     $synth.Rate = 0; $synth.Speak('Hello world');"
                        .to_string(),
                ],
            },
            _ => ToolCommand {
                program: "espeak".to_string(),
                args: vec!["-s".to_string(), "200".to_string(), "Hello world".to_string()],
            },
        };
        assert_eq!(job.command, expected);
        assert!(!job.command.args.iter().any(|a| a == "-v"));
        assert!(!job.command.args.iter().any(|a| a.contains("SelectVoice")));
        let done = finish_speaking(&config, &engine, exited(true, b""));
        assert_eq!(done, Ok(notice(NoticeKind::Success, "Text-to-speech completed successfully!")));
        assert_eq!(exit_code(&done.map(|_| ())), 0);
    }
}
