//! The title of the active window as the bar shows it.

use vstd::prelude::*;
use vstd::string::StrSliceExecFns;
use vstd::string::StringExecFns;

verus! {

/// The number of characters a title is given on the bar.
pub const TITLE_LENGTH: usize = 64;

/// The sign that stands for what was cut out of a title.
pub const ELLIPSIS: &'static str = "…";

/// The number of characters kept in front of the cut.
pub open spec fn kept_left(max_length: nat) -> int {
    max_length / 2 - 1
}

/// The number of characters kept behind the cut.
pub open spec fn kept_right(max_length: nat) -> int {
    max_length - kept_left(max_length)
}

/// A title cut to fit: one of at most `max_length` characters is left as it
/// is; of a longer one the middle is replaced by the ellipsis.
pub open spec fn cropped(title: Seq<char>, max_length: nat) -> Seq<char> {
    if title.len() <= max_length {
        title
    } else {
        title.subrange(0, kept_left(max_length)) + ELLIPSIS@ + title.subrange(
            title.len() - kept_right(max_length),
            title.len() as int,
        )
    }
}

/// Cuts a title to fit. A length under two leaves no room for a cut, so a
/// longer title needs a length of two at least.
pub fn format_title_string(title: String, max_length: usize) -> (shown: String)
    requires
        max_length >= 2 || title@.len() <= max_length,
    ensures
        shown@ == cropped(title@, max_length as nat),
{
    let length = title.as_str().unicode_len();
    if length <= max_length {
        title
    } else {
        let chars_left = (max_length / 2) - 1;
        let chars_right = max_length - chars_left;
        let mut shown = String::from_str(title.as_str().substring_char(0, chars_left));
        shown.append(ELLIPSIS);
        shown.append(title.as_str().substring_char(length - chars_right, length));
        shown
    }
}

} // verus!
