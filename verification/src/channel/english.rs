//! Telling English text from other text, and preparing it to be spoken.

use vstd::prelude::*;
use vstd::string::*;

use crate::config::env;
use crate::text;
use crate::words;

verus! {

/// A letter of the basic Latin alphabet.
pub open spec fn is_latin_letter(c: char) -> bool {
    'a' <= c <= 'z' || 'A' <= c <= 'Z'
}

/// A common Chinese character.
pub open spec fn is_cjk(c: char) -> bool {
    '\u{4e00}' <= c <= '\u{9fff}'
}

/// How many Latin letters a text holds.
pub open spec fn latin_count(s: Seq<char>) -> nat
    decreases s.len(),
{
    if s.len() == 0 {
        0
    } else {
        latin_count(s.drop_last()) + if is_latin_letter(s.last()) {
            1nat
        } else {
            0
        }
    }
}

/// How many common Chinese characters a text holds.
pub open spec fn cjk_count(s: Seq<char>) -> nat
    decreases s.len(),
{
    if s.len() == 0 {
        0
    } else {
        cjk_count(s.drop_last()) + if is_cjk(s.last()) {
            1nat
        } else {
            0
        }
    }
}

/// Whether a run of Latin letters begins at place `i`.
pub open spec fn word_begins(s: Seq<char>, i: int) -> bool {
    is_latin_letter(s[i]) && (i == 0 || !is_latin_letter(s[i - 1]))
}

/// How many runs of Latin letters a text holds.
pub open spec fn word_count(s: Seq<char>) -> nat
    decreases s.len(),
{
    if s.len() == 0 {
        0
    } else {
        word_count(s.drop_last()) + if word_begins(s, s.len() - 1) {
            1nat
        } else {
            0
        }
    }
}

/// What passes for English: enough letters and words, and more than two letters for each Chinese
/// character.
pub open spec fn is_english(s: Seq<char>) -> bool {
    &&& latin_count(s) >= 12
    &&& word_count(s) >= 3
    &&& latin_count(s) > 2 * cjk_count(s)
}

proof fn lemma_counts_bounded(s: Seq<char>)
    ensures
        latin_count(s) <= s.len(),
        cjk_count(s) <= s.len(),
        word_count(s) <= s.len(),
    decreases s.len(),
{
    if s.len() > 0 {
        lemma_counts_bounded(s.drop_last());
    }
}

/// Whether a text passes for English.
pub fn looks_like_english_text(input: &str) -> (r: bool)
    ensures
        r == is_english(input@),
{
    let chars = text::chars_of(input);
    let mut latin: usize = 0;
    let mut cjk: usize = 0;
    let mut words: usize = 0;
    let mut in_word = false;
    let mut i: usize = 0;
    while i < chars.len()
        invariant
            i <= chars@.len(),
            latin == latin_count(chars@.take(i as int)),
            cjk == cjk_count(chars@.take(i as int)),
            words == word_count(chars@.take(i as int)),
            in_word == (i > 0 && is_latin_letter(chars@[i - 1])),
        decreases chars@.len() - i,
    {
        let c = chars[i];
        proof {
            let more = chars@.take(i + 1);
            assert(more.drop_last() =~= chars@.take(i as int));
            assert(more.last() == c);
            assert(i > 0 ==> more[i - 1] == chars@[i - 1]);
            lemma_counts_bounded(chars@.take(i as int));
        }
        if ('a' <= c && c <= 'z') || ('A' <= c && c <= 'Z') {
            latin = latin + 1;
            if !in_word {
                words = words + 1;
                in_word = true;
            }
        } else {
            in_word = false;
            if '\u{4e00}' <= c && c <= '\u{9fff}' {
                cjk = cjk + 1;
            }
        }
        i = i + 1;
    }
    assert(chars@.take(i as int) =~= chars@);
    latin >= 12 && words >= 3 && (latin as u128) > 2 * (cjk as u128)
}

/// A text as it is spoken: without emphasis marks, its words separated by single spaces.
pub open spec fn spoken(s: Seq<char>) -> Seq<char> {
    let plain = text::replaced(
        text::replaced(text::replaced(s, "\r\n"@, "\n"@), "**"@, ""@),
        "__"@,
        ""@,
    );
    text::joined(text::words_of(plain), " "@)
}

/// Prepares a text to be spoken: drops emphasis marks and joins lines and words by single spaces.
pub fn normalize_text_for_speech(input: &str) -> (r: String)
    ensures
        r@ == spoken(input@),
{
    proof {
        reveal_strlit("\r\n");
        reveal_strlit("**");
        reveal_strlit("__");
    }
    let unix = text::replace(input, "\r\n", "\n");
    let bold = text::replace(unix.as_str(), "**", "");
    let plain = text::replace(bold.as_str(), "__", "");
    let words = text::split_words(&text::chars_of(plain.as_str()));
    text::string_of(&text::join(&words, &text::chars_of(" ")))
}

/// Preparing a text line by line, each line trimmed and empty ones dropped, makes no difference.
pub proof fn law_spoken_line_by_line(s: Seq<char>)
    ensures
        ({
            let plain = text::replaced(
                text::replaced(text::replaced(s, "\r\n"@, "\n"@), "**"@, ""@),
                "__"@,
                ""@,
            );
            let lines = env::filled_pieces(text::split_at_each(plain, '\n'));
            spoken(s) == text::joined(text::words_of(text::joined(lines, " "@)), " "@)
        }),
{
    let plain = text::replaced(
        text::replaced(text::replaced(s, "\r\n"@, "\n"@), "**"@, ""@),
        "__"@,
        ""@,
    );
    words::law_lines_do_not_matter(plain);
    reveal_strlit(" ");
    assert(" "@ =~= seq![' ']);
}

/// What is answered aloud too: an English answer to English speech.
pub open spec fn deserves_audio(transcript: Seq<char>, answer: Seq<char>) -> bool {
    is_english(transcript) && is_english(spoken(answer))
}

/// Whether an answer is given aloud too.
pub fn should_send_english_audio_reply(transcript: &str, answer: &str) -> (r: bool)
    ensures
        r == deserves_audio(transcript@, answer@),
{
    looks_like_english_text(transcript) && looks_like_english_text(
        normalize_text_for_speech(answer).as_str(),
    )
}

} // verus!
