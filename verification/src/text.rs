//! Small things about text that several modules share.

use vstd::prelude::*;

verus! {

/// `piece` stands somewhere in `whole`, in one stretch.
pub open spec fn is_piece_of(piece: Seq<char>, whole: Seq<char>) -> bool {
    exists|start: int, end: int|
        0 <= start <= end <= whole.len() && #[trigger] whole.subrange(start, end) == piece
}

/// `first` followed by `second`, as a new string.
pub(crate) fn joined(first: &str, second: &str) -> (text: String)
    ensures
        text@ == first@ + second@,
{
    let mut text = String::from_str(first);
    text.append(second);
    text
}

} // verus!
