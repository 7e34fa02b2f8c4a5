use t2v::config::{AppConfig, ParsedArgs};
use t2v::errors::{ErrorKind, TtsError};
use t2v::tts::{SpeechConfig, DEFAULT_RATE, MAX_RATE, MIN_RATE};

fn args(voice: Option<&str>, rate: Option<u32>) -> ParsedArgs {
    ParsedArgs {
        file: "sample.txt".to_string(),
        voice: voice.map(|v| v.to_string()),
        rate,
        list_voices: false,
        bighelp: false,
    }
}

#[test]
fn rate_bounds_are_inclusive() {
    assert_eq!(AppConfig::validate_rate(50), Ok(()));
    assert_eq!(AppConfig::validate_rate(1000), Ok(()));
    assert_eq!(AppConfig::validate_rate(MIN_RATE), Ok(()));
    assert_eq!(AppConfig::validate_rate(MAX_RATE), Ok(()));
    assert_eq!(AppConfig::validate_rate(200), Ok(()));
}

#[test]
fn rate_just_outside_the_bounds_is_refused() {
    assert_eq!(
        AppConfig::validate_rate(49),
        Err(TtsError::ConfigError(
            "Speech rate 49 is outside valid range (50-1000 words per minute)".to_string()
        ))
    );
    assert_eq!(
        AppConfig::validate_rate(1001),
        Err(TtsError::ConfigError(
            "Speech rate 1001 is outside valid range (50-1000 words per minute)".to_string()
        ))
    );
}

#[test]
fn rate_far_outside_the_bounds_is_refused() {
    let zero = AppConfig::validate_rate(0).unwrap_err();
    assert_eq!(zero.kind(), ErrorKind::Config);
    assert_eq!(
        zero.message(),
        "Speech rate 0 is outside valid range (50-1000 words per minute)"
    );
    let most = AppConfig::validate_rate(u32::MAX).unwrap_err();
    assert_eq!(most.kind(), ErrorKind::Config);
    assert_eq!(
        most.message(),
        "Speech rate 4294967295 is outside valid range (50-1000 words per minute)"
    );
}

#[test]
fn every_rate_is_accepted_exactly_when_in_range() {
    for rate in 0..=1200u32 {
        let accepted = AppConfig::validate_rate(rate).is_ok();
        assert_eq!(accepted, (50..=1000).contains(&rate), "rate {}", rate);
    }
}

#[test]
fn default_speech_config_has_rate_200_and_no_voice() {
    let config = SpeechConfig::default();
    assert_eq!(config.rate, Some(200));
    assert_eq!(config.voice, None);
    assert_eq!(DEFAULT_RATE, 200);
}

#[test]
fn settings_without_rate_use_the_default_rate() {
    let config = AppConfig::from_args(args(None, None)).unwrap();
    assert_eq!(config.file_path, "sample.txt");
    assert_eq!(config.speech_config, SpeechConfig::default());
    assert!(!config.list_voices);
    assert!(!config.show_help);
}

#[test]
fn settings_keep_the_voice_and_the_rate_given() {
    let config = AppConfig::from_args(args(Some("Victoria"), Some(180))).unwrap();
    assert_eq!(config.speech_config.voice.as_deref(), Some("Victoria"));
    assert_eq!(config.speech_config.rate, Some(180));
    let voice_only = AppConfig::from_args(args(Some("Alex"), None)).unwrap();
    assert_eq!(voice_only.speech_config.voice.as_deref(), Some("Alex"));
    assert_eq!(voice_only.speech_config.rate, Some(200));
}

#[test]
fn settings_carry_the_flags_and_the_path() {
    let parsed = ParsedArgs {
        file: "story.txt".to_string(),
        voice: None,
        rate: Some(1000),
        list_voices: true,
        bighelp: true,
    };
    let config = AppConfig::parse_matches(&parsed).unwrap();
    assert_eq!(config.file_path, "story.txt");
    assert_eq!(config.speech_config.rate, Some(1000));
    assert!(config.list_voices);
    assert!(config.show_help);
    assert_eq!(AppConfig::from_args(parsed), Ok(config));
}

#[test]
fn settings_with_a_bad_rate_are_refused() {
    let low = AppConfig::from_args(args(Some("Alex"), Some(49)));
    assert_eq!(
        low,
        Err(TtsError::ConfigError(
            "Speech rate 49 is outside valid range (50-1000 words per minute)".to_string()
        ))
    );
    let high = AppConfig::parse_matches(&args(None, Some(1001)));
    assert_eq!(
        high,
        Err(TtsError::ConfigError(
            "Speech rate 1001 is outside valid range (50-1000 words per minute)".to_string()
        ))
    );
}
