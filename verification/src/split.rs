//! Text as bytes, cut into pieces at a separator: the segments of a
//! request path between slashes, the words of a chat message between
//! spaces.

use vstd::prelude::*;

verus! {

/// The byte `/`, which separates the segments of a path.
pub const SLASH: u8 = 47;

/// The byte of a space, which separates the words of a message.
pub const SPACE: u8 = 32;

/// The index of the first `sep` in `text` at or after `from`, or the
/// length of `text` if there is none.
pub open spec fn piece_end(text: Seq<u8>, sep: u8, from: int) -> int
    decreases text.len() - from,
{
    if from >= text.len() {
        text.len() as int
    } else if text[from] == sep {
        from
    } else {
        piece_end(text, sep, from + 1)
    }
}

/// Where piece `k` of `text` begins, counting the pieces from zero as
/// cutting at every `sep` gives them. A value beyond the length of `text`
/// says that `text` has no such piece.
pub open spec fn piece_start(text: Seq<u8>, sep: u8, k: nat) -> int
    decreases k,
{
    if k == 0 {
        0
    } else {
        piece_end(text, sep, piece_start(text, sep, (k - 1) as nat)) + 1
    }
}

/// True if cutting `text` at every `sep` gives more than `k` pieces.
pub open spec fn has_piece(text: Seq<u8>, sep: u8, k: nat) -> bool {
    piece_start(text, sep, k) <= text.len()
}

/// Piece `k` of `text`, without the separators around it.
pub open spec fn piece(text: Seq<u8>, sep: u8, k: nat) -> Seq<u8>
    recommends
        has_piece(text, sep, k),
{
    text.subrange(piece_start(text, sep, k), piece_end(text, sep, piece_start(text, sep, k)))
}

/// The end of a piece lies between its start and the end of the text, no
/// separator stands before it, and one stands at it unless the text ends
/// there.
pub proof fn lemma_piece_end(text: Seq<u8>, sep: u8, from: int)
    requires
        0 <= from <= text.len(),
    ensures
        from <= piece_end(text, sep, from) <= text.len(),
        forall|i: int| from <= i < piece_end(text, sep, from) ==> text[i] != sep,
        piece_end(text, sep, from) < text.len() ==> text[piece_end(text, sep, from)] == sep,
    decreases text.len() - from,
{
    if from < text.len() && text[from] != sep {
        lemma_piece_end(text, sep, from + 1);
    }
}

/// Finds the end of the piece that begins at `from`: the first `sep` at
/// or after `from`, or the end of `text`.
pub fn find_piece_end(text: &[u8], sep: u8, from: usize) -> (end: usize)
    requires
        from <= text@.len(),
    ensures
        end == piece_end(text@, sep, from as int),
        from <= end <= text@.len(),
        forall|i: int| from <= i < end ==> text@[i] != sep,
        end < text@.len() ==> text@[end as int] == sep,
{
    proof {
        lemma_piece_end(text@, sep, from as int);
    }
    let mut i: usize = from;
    while i < text.len() && text[i] != sep
        invariant
            from <= i <= text@.len(),
            piece_end(text@, sep, from as int) == piece_end(text@, sep, i as int),
        decreases text@.len() - i,
    {
        i += 1;
    }
    i
}

/// Compares the bytes of `text` from `from` up to `to` with `word`.
pub fn range_equals(text: &[u8], from: usize, to: usize, word: &[u8]) -> (same: bool)
    requires
        from <= to <= text@.len(),
    ensures
        same == (text@.subrange(from as int, to as int) == word@),
{
    let ghost part = text@.subrange(from as int, to as int);
    if to - from != word.len() {
        return false;
    }
    let mut i: usize = 0;
    while i < word.len()
        invariant
            from <= to <= text@.len(),
            to - from == word@.len(),
            part == text@.subrange(from as int, to as int),
            0 <= i <= word@.len(),
            forall|j: int| 0 <= j < i ==> part[j] == word@[j],
        decreases word@.len() - i,
    {
        if text[from + i] != word[i] {
            assert(part[i as int] != word@[i as int]);
            return false;
        }
        i += 1;
    }
    assert(part =~= word@);
    true
}

/// Copies the bytes of `text` from `from` to its end.
pub fn copy_from(text: &[u8], from: usize) -> (tail: Vec<u8>)
    requires
        from <= text@.len(),
    ensures
        tail@ == text@.subrange(from as int, text@.len() as int),
{
    let mut tail: Vec<u8> = Vec::new();
    let mut i: usize = from;
    while i < text.len()
        invariant
            from <= i <= text@.len(),
            tail@ == text@.subrange(from as int, i as int),
        decreases text@.len() - i,
    {
        tail.push(text[i]);
        assert(tail@ =~= text@.subrange(from as int, i + 1));
        i += 1;
    }
    tail
}

} // verus!
