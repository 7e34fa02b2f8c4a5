//! Text as the program handles it: numbers written in decimal, the search
//! for a phrase, and the text of a tool's captured output.

use vstd::prelude::*;
use vstd::string::*;
use vstd::utf8::*;

verus! {

/// `String::push` of the standard library appends one character to the end of
/// the string and changes nothing else.
pub assume_specification[ String::push ](text: &mut String, c: char)
    ensures
        final(text)@ == old(text)@.push(c),
;

/// A text that may be absent, as contracts see it.
pub open spec fn optional_text(text: Option<String>) -> Option<Seq<char>> {
    match text {
        Some(text) => Some(text@),
        None => None,
    }
}

/// The character that writes the digit `d`, for `0 <= d <= 9`.
pub open spec fn digit_char(d: int) -> char {
    (('0' as u8 + d) as u8) as char
}

/// `n` written in decimal, without sign or leading zeros.
pub open spec fn decimal(n: nat) -> Seq<char>
    decreases n,
{
    if n < 10 {
        seq![digit_char(n as int)]
    } else {
        decimal(n / 10).push(digit_char((n % 10) as int))
    }
}

/// `n` written in decimal, with `-` in front when it is negative.
pub open spec fn signed_decimal(n: int) -> Seq<char> {
    if n < 0 {
        seq!['-'] + decimal((-n) as nat)
    } else {
        decimal(n as nat)
    }
}

/// Writes `n` in decimal.
pub fn decimal_string(n: u64) -> (text: String)
    ensures
        text@ == decimal(n as nat),
    decreases n,
{
    let mut text = if n < 10 {
        String::new()
    } else {
        decimal_string(n / 10)
    };
    let digit: u8 = (n % 10) as u8;
    text.push(('0' as u8 + digit) as char);
    text
}

/// Writes `n` in decimal, with `-` in front when it is negative.
pub fn signed_decimal_string(n: i32) -> (text: String)
    ensures
        text@ == signed_decimal(n as int),
{
    if n < 0 {
        let magnitude: u64 = (-(n as i64)) as u64;
        let mut text = String::from_str("-");
        proof {
            reveal_strlit("-");
        }
        text.append(decimal_string(magnitude).as_str());
        text
    } else {
        decimal_string(n as u64)
    }
}

/// Whether `a` and `b` are the same text.
pub fn same_text(a: &str, b: &str) -> (same: bool)
    ensures
        same == (a@ == b@),
{
    String::from_str(a) == String::from_str(b)
}

/// Whether `pattern` stands in `text` starting at index `at`.
pub open spec fn occurs_at(text: Seq<char>, pattern: Seq<char>, at: int) -> bool {
    &&& 0 <= at
    &&& at + pattern.len() <= text.len()
    &&& text.subrange(at, at + pattern.len()) == pattern
}

/// Whether `pattern` stands somewhere in `text`, character for character.
pub open spec fn contains(text: Seq<char>, pattern: Seq<char>) -> bool {
    exists|at: int| occurs_at(text, pattern, at)
}

/// A phrase that stands in a text stands in every text that holds that
/// text.
pub proof fn lemma_contains_within(
    before: Seq<char>,
    text: Seq<char>,
    after: Seq<char>,
    pattern: Seq<char>,
)
    requires
        contains(text, pattern),
    ensures
        contains(before + text + after, pattern),
{
    let at = choose|at: int| occurs_at(text, pattern, at);
    let whole = before + text + after;
    let start = before.len() + at;
    assert(whole.subrange(start, start + pattern.len()) =~= text.subrange(at, at + pattern.len()));
    assert(occurs_at(whole, pattern, start));
}

/// Every text holds itself.
pub proof fn lemma_contains_itself(text: Seq<char>)
    ensures
        contains(text, text),
{
    assert(text.subrange(0, text.len() as int) =~= text);
    assert(occurs_at(text, text, 0));
}

/// The characters of `text`, in order.
pub fn chars_of(text: &str) -> (chars: Vec<char>)
    ensures
        chars@ == text@,
{
    let mut chars: Vec<char> = Vec::new();
    for c in walk: text.chars()
        invariant
            walk.seq() == text@,
            chars@ == text@.take(walk.index()),
    {
        chars.push(c);
    }
    chars
}

/// Whether `pattern` stands in `text` starting at index `at`.
fn matches_at(text: &Vec<char>, pattern: &Vec<char>, at: usize) -> (matched: bool)
    requires
        at + pattern.len() <= text.len(),
    ensures
        matched == occurs_at(text@, pattern@, at as int),
{
    let mut k: usize = 0;
    while k < pattern.len()
        invariant
            at + pattern.len() <= text.len(),
            k <= pattern.len(),
            forall|j: int| 0 <= j < k ==> text@[at + j] == pattern@[j],
        decreases pattern.len() - k,
    {
        if text[at + k] != pattern[k] {
            assert(text@.subrange(at as int, at + pattern.len())[k as int] != pattern@[k as int]);
            return false;
        }
        k += 1;
    }
    assert(text@.subrange(at as int, at + pattern.len()) =~= pattern@);
    true
}

/// Whether `pattern` stands somewhere in `text`.
pub fn str_contains(text: &str, pattern: &str) -> (found: bool)
    ensures
        found == contains(text@, pattern@),
{
    let text_chars = chars_of(text);
    let pattern_chars = chars_of(pattern);
    if pattern_chars.len() > text_chars.len() {
        return false;
    }
    let last: usize = text_chars.len() - pattern_chars.len();
    let mut at: usize = 0;
    loop
        invariant
            text_chars@ == text@,
            pattern_chars@ == pattern@,
            last + pattern_chars.len() == text_chars.len(),
            at <= last,
            forall|j: int| 0 <= j < at ==> !occurs_at(text@, pattern@, j),
        decreases last - at,
    {
        if matches_at(&text_chars, &pattern_chars, at) {
            return true;
        }
        if at == last {
            return false;
        }
        at += 1;
    }
}

/// The text that `String::from_utf8_lossy` makes of `bytes`.
pub uninterp spec fn utf8_lossy(bytes: Seq<u8>) -> Seq<char>;

/// `String::from_utf8_lossy` of the standard library reads bytes as UTF-8. Each
/// ill-formed stretch becomes the replacement character U+FFFD, so the result
/// depends on the bytes alone; bytes that are well-formed UTF-8 come out as
/// the text they encode.
#[verifier::external_body]
fn lossy_text(bytes: &[u8]) -> (text: String)
    ensures
        text@ == utf8_lossy(bytes@),
        valid_utf8(bytes@) ==> text@ == decode_utf8(bytes@),
{
    String::from_utf8_lossy(bytes).into_owned()
}

/// The text of captured output. Well-formed UTF-8 is the text that it
/// encodes; in anything else, each ill-formed stretch is replaced as
/// `String::from_utf8_lossy` replaces it.
pub open spec fn output_text(bytes: Seq<u8>) -> Seq<char> {
    if valid_utf8(bytes) {
        decode_utf8(bytes)
    } else {
        utf8_lossy(bytes)
    }
}

/// Reads captured output as text.
pub fn read_output(bytes: &[u8]) -> (text: String)
    ensures
        text@ == output_text(bytes@),
{
    lossy_text(bytes)
}

/// Output that is well-formed UTF-8 is read without loss: the text encodes
/// back to the very bytes that were captured.
pub proof fn lemma_well_formed_output_is_kept(bytes: Seq<u8>)
    requires
        valid_utf8(bytes),
    ensures
        encode_utf8(output_text(bytes)) == bytes,
{
    decode_utf8_encode_utf8(bytes);
}

} // verus!
