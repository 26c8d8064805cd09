//! Removal of filler words.

use super::{replace_or_keep, replaced_or_kept};
use crate::text::{trim, trimmed};
use vstd::prelude::*;
use vstd::string::*;

verus! {

/// Filler words and phrases, whole words only and in any case, each with
/// the white space that follows it.
pub const FILLER_PATTERN: &'static str =
    r"(?i)\b(um|uh|uhm|er|ah|like|you know|I mean|so|basically|actually|literally|right)\b\s*";

/// Two or more white-space characters in a row.
pub const MULTI_SPACE_PATTERN: &'static str = r"\s{2,}";

/// A text without its fillers: every filler is cut out, every run of white
/// space that this leaves becomes one space, and the ends are trimmed.
pub open spec fn fillers_removed(text: Seq<char>) -> Seq<char> {
    trimmed(
        replaced_or_kept(
            MULTI_SPACE_PATTERN@,
            replaced_or_kept(FILLER_PATTERN@, text, Seq::empty()),
            " "@,
        ),
    )
}

/// Removes filler words from `text`.
pub fn remove_fillers(text: &str) -> (out: String)
    ensures
        out@ == fillers_removed(text@),
{
    proof {
        reveal_strlit("");
        assert(""@ =~= Seq::<char>::empty());
    }
    let stripped = replace_or_keep(FILLER_PATTERN, String::from_str(text), "");
    let squeezed = replace_or_keep(MULTI_SPACE_PATTERN, stripped, " ");
    trim(squeezed.as_str())
}

} // verus!
