//! Work on texts that the rest of the library shares.

use vstd::prelude::*;
use vstd::string::StrSliceExecFns;

verus! {

/// The mark that some editors put at the start of a text file.
pub open spec fn byte_order_mark() -> char {
    '\u{feff}'
}

/// A text without the byte order mark that it may start with.
pub open spec fn without_mark(text: Seq<char>) -> Seq<char> {
    if text.len() > 0 && text[0] == byte_order_mark() {
        text.subrange(1, text.len() as int)
    } else {
        text
    }
}

/// The text of a string that may be missing.
pub open spec fn optional_text(text: Option<String>) -> Option<Seq<char>> {
    match text {
        Some(t) => Some(t@),
        None => None,
    }
}

/// Whether two texts are the same, letter for letter.
pub fn same_text(a: &str, b: &str) -> (same: bool)
    ensures
        same == (a@ == b@),
{
    a.to_owned() == b.to_owned()
}

/// Drops the byte order mark from the start of a text, if it has one.
pub fn strip_mark(text: &str) -> (rest: &str)
    ensures
        rest@ == without_mark(text@),
{
    let count = text.unicode_len();
    if count > 0 && text.get_char(0) == '\u{feff}' {
        text.substring_char(1, count)
    } else {
        text
    }
}

} // verus!
