//! Texts: where a word occurs, lower case, and copies.
use vstd::prelude::*;
use vstd::utf8::is_ascii_chars;

verus! {

/// `word` stands somewhere in `text`.
pub open spec fn occurs(text: Seq<char>, word: Seq<char>) -> bool {
    exists|i: int|
        0 <= i <= text.len() - word.len() && #[trigger] text.subrange(i, i + word.len()) == word
}

/// The lower case of a text, by Unicode's rules.
pub uninterp spec fn unicode_lowercase(text: Seq<char>) -> Seq<char>;

/// The lower case of an ASCII character.
pub open spec fn ascii_lower(c: char) -> char {
    if 'A' <= c <= 'Z' {
        (c as u8 + 32) as char
    } else {
        c
    }
}

/// The lower case of an ASCII text.
pub open spec fn ascii_lowercase(text: Seq<char>) -> Seq<char> {
    text.map_values(|c: char| ascii_lower(c))
}

/// The lower case of a text.
pub open spec fn lowercase(text: Seq<char>) -> Seq<char> {
    if is_ascii_chars(text) {
        ascii_lowercase(text)
    } else {
        unicode_lowercase(text)
    }
}

/// The lower case of a text is in lower case.
pub open spec fn lower_case_settles(text: Seq<char>) -> bool {
    lowercase(lowercase(text)) == lowercase(text)
}

/// `str::to_lowercase`: the lower case of the text, which for an ASCII text
/// changes the letters `A` to `Z` and nothing else. What it does to other texts
/// is not stated.
#[verifier::external_body]
pub(crate) fn to_lowercase(text: &str) -> (lower: String)
    ensures
        lower@ == if is_ascii_chars(text@) {
            ascii_lowercase(text@)
        } else {
            unicode_lowercase(text@)
        },
{
    text.to_lowercase()
}

/// `str::contains` with a string for the pattern: whether the pattern is a
/// part of the text.
#[verifier::external_body]
pub(crate) fn contains(text: &str, word: &str) -> (found: bool)
    ensures
        found == occurs(text@, word@),
{
    text.contains(word)
}

/// What occurs in a part of a text occurs in the text.
pub proof fn lemma_occurs_in_whole(whole: Seq<char>, part: Seq<char>, word: Seq<char>)
    requires
        occurs(whole, part),
        occurs(part, word),
    ensures
        occurs(whole, word),
{
    let at = choose|i: int|
        0 <= i <= whole.len() - part.len() && #[trigger] whole.subrange(i, i + part.len()) == part;
    let inner = choose|i: int|
        0 <= i <= part.len() - word.len() && #[trigger] part.subrange(i, i + word.len()) == word;
    assert(whole.subrange(at + inner, at + inner + word.len()) =~= part.subrange(
        inner,
        inner + word.len(),
    ));
}

/// The lower case of an ASCII text is in lower case.
pub proof fn law_ascii_lower_case_settles(text: Seq<char>)
    requires
        is_ascii_chars(text),
    ensures
        is_ascii_chars(lowercase(text)),
        lower_case_settles(text),
{
    assert(ascii_lowercase(ascii_lowercase(text)) =~= ascii_lowercase(text));
}

/// Copies an optional text.
pub fn clone_option(text: &Option<String>) -> (copy: Option<String>)
    ensures
        copy == *text,
{
    match text {
        Some(text) => Some(text.clone()),
        None => None,
    }
}

/// A copy is what was copied.
pub proof fn law_copies_are_equal(text: &Option<String>, copy: Option<String>)
    requires
        call_ensures(clone_option, (text,), copy),
    ensures
        match (text, copy) {
            (Some(text), Some(copy)) => copy@ == text@,
            (None, None) => true,
            _ => false,
        },
{
}

} // verus!
