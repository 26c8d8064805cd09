//! Sentence punctuation: a closing mark at the end, a capital at every
//! sentence start.

use super::regex_accepts;
use crate::text::{
    char_to_uppercase, char_uppercase_of, chars_of, glue, skip_trailing, to_uppercase,
    trim_end, uppercase_of,
};
use vstd::prelude::*;
use vstd::string::*;

verus! {

/// A closing mark, the white space after it, and the first character of
/// the word that follows.
pub const SENTENCE_START_PATTERN: &'static str = r"([.!?]\s+)(\w)";

/// What `Regex::replace_all` gives for a pattern and a text to search
/// when every match is replaced by its first group followed by the upper
/// case of its second group.
pub uninterp spec fn regex_replaced_upper(pattern: Seq<char>, haystack: Seq<char>) -> Seq<char>;

/// Whether a text ends in a closing mark.
pub open spec fn ends_sentence(text: Seq<char>) -> bool {
    text.len() > 0 && (text.last() == '.' || text.last() == '!' || text.last() == '?')
}

/// A text that ends its last sentence: left as it is if, trailing white
/// space aside, it ends in a closing mark; otherwise cut after its last
/// visible character and closed with a full stop.
pub open spec fn terminated(text: Seq<char>) -> Seq<char> {
    if ends_sentence(skip_trailing(text)) {
        text
    } else {
        skip_trailing(text) + "."@
    }
}

/// A text whose sentences, from the second on, begin in upper case.
pub open spec fn sentences_capitalized(text: Seq<char>) -> Seq<char> {
    if regex_accepts(SENTENCE_START_PATTERN@) {
        regex_replaced_upper(SENTENCE_START_PATTERN@, text)
    } else {
        text
    }
}

/// A text whose first character is in upper case.
pub open spec fn first_capitalized(text: Seq<char>) -> Seq<char> {
    if text.len() == 0 {
        text
    } else {
        char_uppercase_of(text[0]) + text.subrange(1, text.len() as int)
    }
}

/// A text with its punctuation fixed.
pub open spec fn punctuation_fixed(text: Seq<char>) -> Seq<char> {
    first_capitalized(sentences_capitalized(terminated(text)))
}

/// What a sentence start is replaced by: the mark and the white space as
/// they are, then the word's first character in upper case.
pub fn capitalized_start(lead: &str, initial: &str) -> (out: String)
    ensures
        out@ == lead@ + uppercase_of(initial@),
{
    let upper = to_uppercase(initial);
    glue(lead, upper.as_str())
}

/// Compiles `pattern` with `Regex::new` and, if that succeeds, calls
/// `Regex::replace_all` on `haystack` with a replacer that hands the
/// match's first and second group to `capitalized_start`. The pattern must
/// have two groups that take part in every match. `None` means that the
/// pattern was refused. The result depends on the arguments alone and is
/// named `regex_replaced_upper`.
#[verifier::external_body]
fn regex_replace_all_upper(pattern: &str, haystack: &str) -> (out: Option<String>)
    requires
        pattern@ == SENTENCE_START_PATTERN@,
    ensures
        out is Some == regex_accepts(pattern@),
        out matches Some(text) ==> text@ == regex_replaced_upper(pattern@, haystack@),
{
    match regex::Regex::new(pattern) {
        Ok(re) => Some(
            re.replace_all(haystack, |caps: &regex::Captures| capitalized_start(&caps[1], &caps[2]))
                .into_owned(),
        ),
        Err(_) => None,
    }
}

/// Closes the last sentence of `text`.
pub fn terminate(text: &str) -> (out: String)
    ensures
        out@ == terminated(text@),
{
    let cut = trim_end(text);
    let chars = chars_of(cut.as_str());
    let n = chars.len();
    if n > 0 && (chars[n - 1] == '.' || chars[n - 1] == '!' || chars[n - 1] == '?') {
        String::from_str(text)
    } else {
        glue(cut.as_str(), ".")
    }
}

/// Puts the first character of `text` in upper case.
pub fn capitalize_first(text: &str) -> (out: String)
    ensures
        out@ == first_capitalized(text@),
{
    let n = text.unicode_len();
    if n == 0 {
        return String::from_str(text);
    }
    let first = text.get_char(0);
    let upper = char_to_uppercase(first);
    glue(upper.as_str(), text.substring_char(1, n))
}

/// Fixes the punctuation of `text`: the text is closed with a full stop
/// unless it ends in a closing mark, and the first character of every
/// sentence is put in upper case.
pub fn fix_punctuation(text: &str) -> (out: String)
    ensures
        out@ == punctuation_fixed(text@),
{
    let closed = terminate(text);
    let capitalized = match regex_replace_all_upper(SENTENCE_START_PATTERN, closed.as_str()) {
        Some(replaced) => replaced,
        None => closed,
    };
    capitalize_first(capitalized.as_str())
}

} // verus!
