//! The PowerShell scripts that drive the Windows speech API.

use crate::text::{optional_text, signed_decimal, signed_decimal_string};
use vstd::math::abs;
use vstd::prelude::*;
use vstd::string::*;

verus! {

/// The whole number nearest to `offset / 50`. Where two whole numbers are
/// equally near, which is at an odd multiple of 25, it is the one nearer to
/// zero.
pub open spec fn nearest_step(offset: int) -> int {
    if offset >= 0 {
        (offset + 24) / 50
    } else {
        -((24 - offset) / 50)
    }
}

/// The rate on the scale of the Windows speech API, which runs from -10 to
/// 10, for a rate in words per minute: `(rate - 200) / 50` rounded to the
/// nearest whole number, and no further than the ends of the scale.
pub open spec fn sapi_rate(rate: int) -> int {
    let steps = nearest_step(rate - 200);
    if steps < -10 {
        -10
    } else if steps > 10 {
        10
    } else {
        steps
    }
}

/// No whole number is nearer to `offset / 50` than `nearest_step(offset)`, and
/// one that is as near is no nearer to zero.
pub proof fn lemma_nearest_step_is_nearest(offset: int, other: int)
    ensures
        abs(offset - 50 * nearest_step(offset)) <= abs(offset - 50 * other),
        abs(offset - 50 * nearest_step(offset)) == abs(offset - 50 * other) ==> abs(
            nearest_step(offset),
        ) <= abs(other),
{
    let step = nearest_step(offset);
    assert(-25 <= offset - 50 * step <= 25);
    if other > step {
        assert(50 * other >= 50 * step + 50);
    } else if other < step {
        assert(50 * other <= 50 * step - 50);
    }
}

/// On the scale of the speech API, 200 words per minute is 0 and every 50
/// words above or below it are one step, up to 10 steps either way. A rate
/// between two steps goes to the nearer one, so the result is never more
/// than 25 words per minute away from the rate, short of the ends of the
/// scale; a rate halfway between two steps goes to the one nearer to 0.
pub proof fn lemma_sapi_rate_steps(rate: int)
    ensures
        -10 <= sapi_rate(rate) <= 10,
        sapi_rate(rate) == 10 <==> rate >= 676,
        sapi_rate(rate) == -10 <==> rate <= -276,
        -10 < sapi_rate(rate) < 10 ==> -25 <= rate - 200 - 50 * sapi_rate(rate) <= 25,
        -10 < sapi_rate(rate) < 10 && rate - 200 - 50 * sapi_rate(rate) == 25 ==> rate > 200,
        -10 < sapi_rate(rate) < 10 && rate - 200 - 50 * sapi_rate(rate) == -25 ==> rate < 200,
{
}

/// A faster rate in words per minute is never a slower rate on the scale of
/// the speech API.
pub proof fn lemma_sapi_rate_is_monotonic(slower: int, faster: int)
    requires
        slower <= faster,
    ensures
        sapi_rate(slower) <= sapi_rate(faster),
{
}

/// Converts a rate in words per minute to the scale of the Windows speech
/// API.
pub fn to_sapi_rate(rate: u32) -> (steps: i32)
    ensures
        steps == sapi_rate(rate as int),
        -10 <= steps <= 10,
{
    if rate >= 200 {
        let above: u32 = (rate - 200 + 24) / 50;
        if above > 10 {
            10
        } else {
            above as i32
        }
    } else {
        let below: u32 = (200 - rate + 24) / 50;
        -(below as i32)
    }
}

/// What stands for the character `c` inside a single-quoted PowerShell
/// literal: a quote is written twice, any other character as it is.
pub open spec fn quoted_char(c: char) -> Seq<char> {
    if c == '\'' {
        seq!['\'', '\'']
    } else {
        seq![c]
    }
}

/// `text` as it stands between the quotes of a single-quoted PowerShell
/// literal: every single quote doubled, nothing else changed.
pub open spec fn quoted(text: Seq<char>) -> Seq<char>
    decreases text.len(),
{
    if text.len() == 0 {
        seq![]
    } else {
        quoted_char(text[0]) + quoted(text.drop_first())
    }
}

/// Escaping a text and one more character is escaping the text and then
/// the character.
pub proof fn lemma_quoted_push(text: Seq<char>, c: char)
    ensures
        quoted(text.push(c)) == quoted(text) + quoted_char(c),
    decreases text.len(),
{
    let longer = text.push(c);
    if text.len() == 0 {
        assert(longer.drop_first() =~= text);
        assert(quoted(longer) == quoted_char(c) + quoted(text));
        assert(quoted_char(c) + quoted(text) =~= quoted(text) + quoted_char(c));
    } else {
        lemma_quoted_push(text.drop_first(), c);
        assert(longer.drop_first() =~= text.drop_first().push(c));
        assert(quoted(longer) == quoted_char(text[0]) + quoted(longer.drop_first()));
        assert(quoted_char(text[0]) + (quoted(text.drop_first()) + quoted_char(c))
            =~= quoted(text) + quoted_char(c));
    }
}

/// Doubles every single quote in `text`, so that the result can stand
/// between single quotes in a script.
pub fn escape_single_quotes(text: &str) -> (escaped: String)
    ensures
        escaped@ == quoted(text@),
{
    let mut escaped = String::new();
    for c in walk: text.chars()
        invariant
            walk.seq() == text@,
            escaped@ == quoted(text@.take(walk.index())),
    {
        proof {
            lemma_quoted_push(text@.take(walk.index()), c);
            assert(text@.take(walk.index() + 1) =~= text@.take(walk.index()).push(c));
        }
        escaped.push(c);
        if c == '\'' {
            escaped.push('\'');
        }
    }
    assert(text@.take(text@.len() as int) =~= text@);
    escaped
}

/// The statement that selects the voice, or nothing where no voice is asked
/// for. The voice's name is handed over as a single-quoted literal.
pub open spec fn voice_statement(voice: Option<Seq<char>>) -> Seq<char> {
    match voice {
        Some(name) => "$synth.SelectVoice('"@ + quoted(name) + "'); "@,
        None => Seq::empty(),
    }
}

/// The statement that sets the rate, on the scale of the speech API, or
/// nothing where no rate is asked for.
pub open spec fn rate_statement(rate: Option<u32>) -> Seq<char> {
    match rate {
        Some(wpm) => "$synth.Rate = "@ + signed_decimal(sapi_rate(wpm as int)) + "; "@,
        None => Seq::empty(),
    }
}

/// The statement that speaks `text`, handed over as a single-quoted literal.
pub open spec fn speak_statement(text: Seq<char>) -> Seq<char> {
    "$synth.Speak('"@ + quoted(text) + "');"@
}

/// The script that speaks `text`: it loads the speech API, makes a
/// synthesizer, selects the voice and sets the rate where they are given,
/// and speaks.
pub open spec fn speak_script(
    text: Seq<char>,
    voice: Option<Seq<char>>,
    rate: Option<u32>,
) -> Seq<char> {
    "Add-Type -AssemblyName System.Speech; "@
        + "$synth = New-Object System.Speech.Synthesis.SpeechSynthesizer; "@
        + voice_statement(voice) + rate_statement(rate) + speak_statement(text)
}

/// The script that prints the name and the description of every installed
/// voice, one voice to a line.
pub const LIST_VOICES_SCRIPT: &'static str = "Add-Type -AssemblyName System.Speech; \
    $synth = New-Object System.Speech.Synthesis.SpeechSynthesizer; \
    $synth.GetInstalledVoices() | ForEach-Object { \
    Write-Host $_.VoiceInfo.Name, '-', $_.VoiceInfo.Description \
    }";

/// The script that lists the installed voices.
pub open spec fn list_voices_script() -> Seq<char> {
    LIST_VOICES_SCRIPT@
}

fn build_voice_statement(voice: &Option<String>) -> (statement: String)
    ensures
        statement@ == voice_statement(optional_text(*voice)),
{
    match voice {
        Some(name) => {
            let mut statement = String::from_str("$synth.SelectVoice('");
            statement.append(escape_single_quotes(name.as_str()).as_str());
            statement.append("'); ");
            statement
        },
        None => String::new(),
    }
}

fn build_rate_statement(rate: Option<u32>) -> (statement: String)
    ensures
        statement@ == rate_statement(rate),
{
    match rate {
        Some(wpm) => {
            let mut statement = String::from_str("$synth.Rate = ");
            statement.append(signed_decimal_string(to_sapi_rate(wpm)).as_str());
            statement.append("; ");
            statement
        },
        None => String::new(),
    }
}

fn build_speak_statement(text: &str) -> (statement: String)
    ensures
        statement@ == speak_statement(text@),
{
    let mut statement = String::from_str("$synth.Speak('");
    statement.append(escape_single_quotes(text).as_str());
    statement.append("');");
    statement
}

/// Writes the script that speaks `text` with the given voice and rate.
pub fn build_speak_script(
    text: &str,
    voice: &Option<String>,
    rate: Option<u32>,
) -> (script: String)
    ensures
        script@ == speak_script(text@, optional_text(*voice), rate),
{
    let mut script = String::from_str("Add-Type -AssemblyName System.Speech; ");
    script.append("$synth = New-Object System.Speech.Synthesis.SpeechSynthesizer; ");
    script.append(build_voice_statement(voice).as_str());
    script.append(build_rate_statement(rate).as_str());
    script.append(build_speak_statement(text).as_str());
    script
}

/// Writes the script that lists the installed voices.
pub fn build_list_voices_script() -> (script: String)
    ensures
        script@ == list_voices_script(),
{
    String::from_str(LIST_VOICES_SCRIPT)
}

/// A reader of single-quoted literals that knows the apostrophe, U+0027, as
/// the only quote. It starts after the opening quote: two quotes in a row
/// stand for one quote, a quote alone ends the literal, and every other
/// character stands for itself. The result is the text of the literal and
/// what follows its closing quote; there is none where the literal never
/// ends.
pub open spec fn read_quoted(script: Seq<char>) -> Option<(Seq<char>, Seq<char>)>
    decreases script.len(),
{
    if script.len() == 0 {
        None
    } else if script[0] != '\'' {
        match read_quoted(script.drop_first()) {
            Some((text, rest)) => Some((seq![script[0]] + text, rest)),
            None => None,
        }
    } else if script.len() >= 2 && script[1] == '\'' {
        match read_quoted(script.skip(2)) {
            Some((text, rest)) => Some((seq!['\''] + text, rest)),
            None => None,
        }
    } else {
        Some((Seq::empty(), script.drop_first()))
    }
}

/// No text breaks out of its literal, as far as the apostrophe goes: where
/// `text` is escaped and closed by a quote, the reader gives back `text`,
/// however many apostrophes it holds, and goes on with what follows the
/// closing quote, provided that this does not itself begin with a quote.
pub proof fn lemma_quoted_reads_back(text: Seq<char>, rest: Seq<char>)
    requires
        rest.len() > 0 ==> rest[0] != '\'',
    ensures
        read_quoted(quoted(text) + seq!['\''] + rest) == Some((text, rest)),
    decreases text.len(),
{
    let script = quoted(text) + seq!['\''] + rest;
    if text.len() == 0 {
        assert(script =~= seq!['\''] + rest);
        assert(script.drop_first() =~= rest);
    } else {
        let tail = text.drop_first();
        let tail_script = quoted(tail) + seq!['\''] + rest;
        lemma_quoted_reads_back(tail, rest);
        if text[0] == '\'' {
            assert(script =~= seq!['\'', '\''] + tail_script);
            assert(script.skip(2) =~= tail_script);
            assert(seq!['\''] + tail =~= text);
        } else {
            assert(script =~= seq![text[0]] + tail_script);
            assert(script.drop_first() =~= tail_script);
            assert(seq![text[0]] + tail =~= text);
        }
    }
}

/// What the script that speaks holds before the literal of its text.
pub open spec fn speak_script_head(voice: Option<Seq<char>>, rate: Option<u32>) -> Seq<char> {
    "Add-Type -AssemblyName System.Speech; "@
        + "$synth = New-Object System.Speech.Synthesis.SpeechSynthesizer; "@
        + voice_statement(voice) + rate_statement(rate) + "$synth.Speak('"@
}

/// In the script that speaks `text`, the literal handed to the synthesizer
/// reads back as `text`, however many apostrophes it holds, and the call is
/// closed right after it.
pub proof fn lemma_spoken_text_reads_back(
    text: Seq<char>,
    voice: Option<Seq<char>>,
    rate: Option<u32>,
)
    ensures
        speak_script(text, voice, rate) == speak_script_head(voice, rate)
            + (quoted(text) + "');"@),
        read_quoted(quoted(text) + "');"@) == Some((text, ");"@)),
{
    assert(speak_script(text, voice, rate) =~= speak_script_head(voice, rate)
        + (quoted(text) + "');"@));
    reveal_strlit("');");
    reveal_strlit(");");
    assert("');"@ =~= seq!['\''] + ");"@);
    assert(quoted(text) + "');"@ =~= quoted(text) + seq!['\''] + ");"@);
    lemma_quoted_reads_back(text, ");"@);
}

/// What the script that speaks holds before the literal of the voice's
/// name.
pub open spec fn select_voice_head() -> Seq<char> {
    "Add-Type -AssemblyName System.Speech; "@
        + "$synth = New-Object System.Speech.Synthesis.SpeechSynthesizer; "@
        + "$synth.SelectVoice('"@
}

/// In the script that speaks with the voice `name`, the literal that selects
/// the voice reads back as `name`, however many apostrophes it holds, and
/// the call is closed right after it: no part of the name is read as script.
pub proof fn lemma_voice_name_reads_back(
    name: Seq<char>,
    text: Seq<char>,
    rate: Option<u32>,
    rest: Seq<char>,
)
    ensures
        read_quoted(quoted(name) + "'); "@ + rest) == Some((name, "); "@ + rest)),
        speak_script(text, Some(name), rate) == select_voice_head() + (quoted(name) + "'); "@
            + (rate_statement(rate) + speak_statement(text))),
{
    reveal_strlit("'); ");
    reveal_strlit("); ");
    assert("'); "@ =~= seq!['\''] + "); "@);
    assert(quoted(name) + "'); "@ + rest =~= quoted(name) + seq!['\''] + ("); "@ + rest));
    lemma_quoted_reads_back(name, "); "@ + rest);
    assert(speak_script(text, Some(name), rate) =~= select_voice_head() + (quoted(name)
        + "'); "@ + (rate_statement(rate) + speak_statement(text))));
}

} // verus!
