//! What holds across several calls on a buffer.
use vstd::prelude::*;
use crate::buffer::Buffer;
use crate::text::{bytes_of, lemma_splice_inverse};

verus! {

broadcast use {vstd::utf8::encode_utf8_valid_utf8, vstd::utf8::encode_utf8_decode_utf8};

/// An undo with nothing to undo, or a redo with nothing to redo, leaves the
/// text, the cursor and both stacks as they were.
pub proof fn law_empty_history_steps_keep_state(b: Buffer, after_undo: Buffer, after_redo: Buffer)
    requires
        b.wf(),
        b.undone(after_undo),
        b.redone(after_redo),
    ensures
        b.history.undo@.len() == 0 ==> after_undo.same_as(b),
        b.history.redo@.len() == 0 ==> after_redo.same_as(b),
{
}

/// Undoing a replacement right after it restores the text and the cursor.
pub proof fn law_undo_inverts_replace(b0: Buffer, b1: Buffer, b2: Buffer, at: int, t: Seq<char>)
    requires
        b0.wf(),
        b0.is_offset(at),
        b0.is_offset(b0.offset as int),
        b0.replaced(b1, at, t),
        b1.undone(b2),
    ensures
        b2.text@ == b0.text@,
        b2.offset == b0.offset,
{
    let lo = if at < b0.offset { at } else { b0.offset as int };
    let hi = if at < b0.offset { b0.offset as int } else { at };
    lemma_splice_inverse(b0.bytes(), lo, hi, bytes_of(t));
    assert(bytes_of(b2.text@) == bytes_of(b0.text@));
    assert(vstd::utf8::decode_utf8(bytes_of(b2.text@)) == b2.text@);
}

/// Redoing an undone replacement gives back the text and the cursor that the
/// replacement produced.
pub proof fn law_redo_reapplies_replace(
    b0: Buffer,
    b1: Buffer,
    b2: Buffer,
    b3: Buffer,
    at: int,
    t: Seq<char>,
)
    requires
        b0.wf(),
        b0.is_offset(at),
        b0.is_offset(b0.offset as int),
        b0.replaced(b1, at, t),
        b1.undone(b2),
        b2.redone(b3),
    ensures
        b3.text@ == b1.text@,
        b3.offset == b1.offset,
{
    let lo = if at < b0.offset { at } else { b0.offset as int };
    let hi = if at < b0.offset { b0.offset as int } else { at };
    let tb = bytes_of(t);
    lemma_splice_inverse(b0.bytes(), lo, hi, tb);
    assert(b1.bytes().subrange(lo, lo + tb.len()) =~= tb);
    assert(bytes_of(b3.text@) == bytes_of(b1.text@));
    assert(vstd::utf8::decode_utf8(bytes_of(b3.text@)) == b3.text@);
}

/// After a replacement, an undo and a second replacement, the undone edit is
/// gone: a redo changes nothing.
pub proof fn law_new_edit_discards_redo(
    b0: Buffer,
    b1: Buffer,
    b2: Buffer,
    b3: Buffer,
    b4: Buffer,
    at: int,
    t: Seq<char>,
    at2: int,
    t2: Seq<char>,
)
    requires
        b0.wf(),
        b0.replaced(b1, at, t),
        b1.undone(b2),
        b2.replaced(b3, at2, t2),
        b3.redone(b4),
    ensures
        b4.same_as(b3),
        b4.history.redo@.len() == 0,
{
}

} // verus!
