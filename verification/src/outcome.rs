//! What the outcome of a command means: whether the tool has spoken or
//! listed its voices, and which error it is where it has not.

use crate::errors::{
    os_error_outcome, result_view, ErrorKind, OsErrorView, TtsError, TtsErrorView, TtsResult,
};
use crate::process::{run_view, ProcessOutputView, ToolRun};
use crate::text::{
    contains, lemma_contains_itself, lemma_contains_within, lemma_well_formed_output_is_kept,
    occurs_at, output_text, read_output, str_contains,
};
use crate::tts::{Platform, SpeechConfig, SpeechConfigView};
use vstd::prelude::*;
use vstd::string::*;
use vstd::utf8::{encode_utf8, valid_utf8};

verus! {

/// The name of this kind of host in messages.
pub open spec fn platform_name(platform: Platform) -> Seq<char> {
    match platform {
        Platform::MacOs => "macOS"@,
        Platform::Windows => "Windows"@,
        Platform::Linux => "Linux"@,
    }
}

/// The two phrases by which the speech tool of this kind of host says that
/// it does not know a voice.
pub open spec fn unknown_voice_phrases(platform: Platform) -> (Seq<char>, Seq<char>) {
    match platform {
        Platform::MacOs => ("invalid voice"@, "voice not found"@),
        Platform::Windows => ("Cannot find voice"@, "voice not found"@),
        Platform::Linux => ("voice not available"@, "unknown voice"@),
    }
}

/// Whether what the speech tool wrote to its standard error blames the
/// voice: it holds one of the two phrases of this kind of host.
pub open spec fn blames_voice(platform: Platform, complaint: Seq<char>) -> bool {
    let phrases = unknown_voice_phrases(platform);
    contains(complaint, phrases.0) || contains(complaint, phrases.1)
}

/// The explanation of an unknown voice: it names the voice that was asked
/// for, or `unknown` where none was, and points to the list of voices.
pub open spec fn voice_not_found_message(
    platform: Platform,
    voice: Option<Seq<char>>,
) -> Seq<char> {
    let name = match voice {
        Some(name) => name,
        None => "unknown"@,
    };
    "Voice '"@ + name + "' not found on "@ + platform_name(platform)
        + ". Use --list-voices to see available options"@
}

/// The explanation of any other failure to speak: what the tool wrote to
/// its standard error, as it is.
pub open spec fn speech_failed_message(platform: Platform, complaint: Seq<char>) -> Seq<char> {
    platform_name(platform) + " TTS failed: "@ + complaint
}

/// The error for a speech tool that ended with a status other than zero,
/// by what it wrote to its standard error.
pub open spec fn failure_to_speak(
    platform: Platform,
    voice: Option<Seq<char>>,
    complaint: Seq<char>,
) -> TtsErrorView {
    if blames_voice(platform, complaint) {
        TtsErrorView {
            kind: ErrorKind::VoiceNotFound,
            message: voice_not_found_message(platform, voice),
        }
    } else {
        TtsErrorView {
            kind: ErrorKind::Speech,
            message: speech_failed_message(platform, complaint),
        }
    }
}

/// What an attempt to speak comes to. A tool that could not be started is a
/// file error where the system did not find it and a system error otherwise.
/// A tool that ended with status zero has spoken. Any other ending is a
/// failure to speak.
pub open spec fn speaking_outcome(
    platform: Platform,
    config: SpeechConfigView,
    run: Result<ProcessOutputView, OsErrorView>,
) -> Result<(), TtsErrorView> {
    match run {
        Err(failure) => Err(os_error_outcome(failure)),
        Ok(output) => if output.success {
            Ok(())
        } else {
            Err(failure_to_speak(platform, config.voice, output_text(output.stderr)))
        },
    }
}

/// The explanation of a failure to list the voices.
pub open spec fn listing_failed_message(platform: Platform) -> Seq<char> {
    "Failed to list "@ + platform_name(platform) + " voices"@
}

/// What an attempt to list the voices comes to. A tool that ended with
/// status zero gives the text of its standard output, as it is. Any other
/// ending is a system error, and a tool that could not be started fails as
/// it does for speaking.
pub open spec fn listing_outcome(
    platform: Platform,
    run: Result<ProcessOutputView, OsErrorView>,
) -> Result<Seq<char>, TtsErrorView> {
    match run {
        Err(failure) => Err(os_error_outcome(failure)),
        Ok(output) => if output.success {
            Ok(output_text(output.stdout))
        } else {
            Err(TtsErrorView { kind: ErrorKind::System, message: listing_failed_message(platform) })
        },
    }
}

/// Speaking succeeds exactly when the tool was started and ended with
/// status zero.
pub proof fn lemma_spoken_only_on_status_zero(
    platform: Platform,
    config: SpeechConfigView,
    run: Result<ProcessOutputView, OsErrorView>,
)
    ensures
        speaking_outcome(platform, config, run) is Ok <==> (run matches Ok(output)
            && output.success),
{
}

/// The explanation of an unknown voice names the voice that was asked for
/// and points to the option that lists the voices.
pub proof fn lemma_message_names_the_voice(platform: Platform, voice: Seq<char>)
    ensures
        contains(voice_not_found_message(platform, Some(voice)), voice),
        contains(voice_not_found_message(platform, Some(voice)), "--list-voices"@),
{
    let message = voice_not_found_message(platform, Some(voice));
    let hint = ". Use --list-voices to see available options"@;
    let tail = "' not found on "@ + platform_name(platform) + hint;
    assert(message =~= "Voice '"@ + voice + tail);
    lemma_contains_itself(voice);
    lemma_contains_within("Voice '"@, voice, tail, voice);

    reveal_strlit(". Use --list-voices to see available options");
    reveal_strlit("--list-voices");
    assert(hint.subrange(6, 19) =~= "--list-voices"@);
    assert(occurs_at(hint, "--list-voices"@, 6));
    let head = "Voice '"@ + voice + "' not found on "@ + platform_name(platform);
    assert(message =~= head + hint + Seq::<char>::empty());
    lemma_contains_within(head, hint, Seq::<char>::empty(), "--list-voices"@);
}

/// A speech tool that ends with a status other than zero has failed. Where
/// its standard error holds one of the phrases of its host, it has not found
/// the voice: the error says so, names the voice, and points to the list of
/// voices. With any other standard error the failure is a speech error that
/// carries the standard error as it is.
pub proof fn lemma_failed_speech_is_classified(
    platform: Platform,
    config: SpeechConfigView,
    output: ProcessOutputView,
)
    requires
        !output.success,
    ensures
        ({
            let complaint = output_text(output.stderr);
            let phrases = unknown_voice_phrases(platform);
            let outcome = speaking_outcome(platform, config, Ok(output));
            &&& outcome is Err
            &&& contains(complaint, phrases.0) || contains(complaint, phrases.1) ==> {
                &&& outcome->Err_0.kind == ErrorKind::VoiceNotFound
                &&& outcome->Err_0.message == voice_not_found_message(platform, config.voice)
                &&& config.voice matches Some(name) ==> contains(outcome->Err_0.message, name)
                &&& config.voice is None ==> contains(outcome->Err_0.message, "unknown"@)
            }
            &&& !contains(complaint, phrases.0) && !contains(complaint, phrases.1) ==> {
                &&& outcome->Err_0.kind == ErrorKind::Speech
                &&& outcome->Err_0.message == platform_name(platform) + " TTS failed: "@
                    + complaint
                &&& contains(outcome->Err_0.message, complaint)
            }
        }),
{
    let complaint = output_text(output.stderr);
    match config.voice {
        Some(name) => {
            lemma_message_names_the_voice(platform, name);
        },
        None => {
            lemma_message_names_the_voice(platform, "unknown"@);
        },
    }
    lemma_contains_itself(complaint);
    lemma_contains_within(
        platform_name(platform) + " TTS failed: "@,
        complaint,
        Seq::<char>::empty(),
        complaint,
    );
    assert(speech_failed_message(platform, complaint) =~= platform_name(platform)
        + " TTS failed: "@ + complaint + Seq::<char>::empty());
}

/// Listing the voices succeeds exactly when the tool was started and ended
/// with status zero, and then gives the text of its standard output: where
/// the tool printed well-formed UTF-8, the very bytes that it printed. A
/// tool that ended with any other status is a system error, whatever it
/// wrote.
pub proof fn lemma_listing_is_output_or_system_error(platform: Platform, output: ProcessOutputView)
    ensures
        ({
            let outcome = listing_outcome(platform, Ok(output));
            &&& outcome is Ok <==> output.success
            &&& output.success ==> outcome->Ok_0 == output_text(output.stdout)
            &&& output.success && valid_utf8(output.stdout) ==> encode_utf8(outcome->Ok_0)
                == output.stdout
            &&& !output.success ==> {
                &&& outcome->Err_0.kind == ErrorKind::System
                &&& outcome->Err_0.message == "Failed to list "@ + platform_name(platform)
                    + " voices"@
            }
        }),
{
    if valid_utf8(output.stdout) {
        lemma_well_formed_output_is_kept(output.stdout);
    }
}

/// The name of this kind of host in messages.
pub fn platform_label(platform: Platform) -> (name: &'static str)
    ensures
        name@ == platform_name(platform),
{
    match platform {
        Platform::MacOs => "macOS",
        Platform::Windows => "Windows",
        Platform::Linux => "Linux",
    }
}

/// Whether `complaint`, the standard error of a speech tool, blames the
/// voice.
pub fn complaint_blames_voice(platform: Platform, complaint: &str) -> (blames: bool)
    ensures
        blames == blames_voice(platform, complaint@),
{
    match platform {
        Platform::MacOs => {
            str_contains(complaint, "invalid voice") || str_contains(complaint, "voice not found")
        },
        Platform::Windows => {
            str_contains(complaint, "Cannot find voice")
                || str_contains(complaint, "voice not found")
        },
        Platform::Linux => {
            str_contains(complaint, "voice not available")
                || str_contains(complaint, "unknown voice")
        },
    }
}

/// The error for a speech tool that ended with a status other than zero and
/// wrote `complaint` to its standard error: an unknown voice where the
/// complaint blames the voice, a failure to speak otherwise.
pub fn classify_speak_failure(
    platform: Platform,
    config: &SpeechConfig,
    complaint: &str,
) -> (error: TtsError)
    ensures
        error@ == failure_to_speak(platform, config@.voice, complaint@),
{
    if complaint_blames_voice(platform, complaint) {
        let mut message = String::from_str("Voice '");
        match &config.voice {
            Some(name) => message.append(name.as_str()),
            None => message.append("unknown"),
        }
        message.append("' not found on ");
        message.append(platform_label(platform));
        message.append(". Use --list-voices to see available options");
        TtsError::VoiceNotFound(message)
    } else {
        let mut message = String::from_str(platform_label(platform));
        message.append(" TTS failed: ");
        message.append(complaint);
        TtsError::SpeechError(message)
    }
}

/// What an attempt to speak on this kind of host comes to.
pub fn speak_result(
    platform: Platform,
    config: &SpeechConfig,
    run: ToolRun,
) -> (result: TtsResult<()>)
    ensures
        result_view(result) == speaking_outcome(platform, config@, run_view(run)),
{
    match run {
        Err(failure) => Err(TtsError::from(failure)),
        Ok(output) => {
            if output.success {
                Ok(())
            } else {
                let complaint = read_output(output.stderr.as_slice());
                Err(classify_speak_failure(platform, config, complaint.as_str()))
            }
        },
    }
}

/// What an attempt to list the voices on this kind of host comes to.
pub fn list_voices_result(platform: Platform, run: ToolRun) -> (result: TtsResult<String>)
    ensures
        result_view(result) == listing_outcome(platform, run_view(run)),
{
    match run {
        Err(failure) => Err(TtsError::from(failure)),
        Ok(output) => {
            if output.success {
                Ok(read_output(output.stdout.as_slice()))
            } else {
                let mut message = String::from_str("Failed to list ");
                message.append(platform_label(platform));
                message.append(" voices");
                Err(TtsError::SystemError(message))
            }
        },
    }
}

} // verus!
