//! The buffer: its text, cursor and the undo/redo history, with the edit
//! primitive that every forward edit, undo and redo goes through.
use std::ops::Range;
use vstd::prelude::*;
use vstd::utf8::*;
use vstd::string::StringSliceAdditionalSpecFns;
use crate::text::{
    bytes_of, lemma_boundary_in_prefix, lemma_bytes_of_concat, lemma_splice_inverse, splice,
    valid_range,
};

verus! {

broadcast use {vstd::utf8::encode_utf8_valid_utf8, vstd::string::group_string_axioms};

/// Why an edit or a cursor move was refused.
#[derive(Debug, Clone, Copy, PartialEq, Eq, Structural)]
pub enum EditError {
    /// An offset lies past the end of the text or inside a character.
    InvalidOffset,
}

/// The cursor after a range of `range_len` bytes was replaced by `new_len`
/// bytes: it moves by the change in length. A forward edit never moves it
/// below the start of the text (`replace` refuses such an edit). An undo or a
/// redo after the cursor was moved elsewhere can; there it stops at the start
/// of the text.
pub open spec fn cursor_after(cursor: int, new_len: int, range_len: int) -> int {
    if cursor + new_len - range_len < 0 {
        0
    } else {
        cursor + new_len - range_len
    }
}

/// One recorded edit: applying it puts `old_txt` in place of the bytes of `range`.
#[derive(Debug)]
pub struct Entry {
    pub range: Range<usize>,
    pub old_txt: String,
}

impl Entry {
    pub fn new(range: Range<usize>, old_txt: String) -> (r: Self)
        ensures
            r.range == range,
            r.old_txt == old_txt,
    {
        Self { range, old_txt }
    }

    pub open spec fn start(&self) -> int {
        self.range.start as int
    }

    pub open spec fn end(&self) -> int {
        self.range.end as int
    }

    /// The bytes that applying this entry puts back.
    pub open spec fn prior(&self) -> Seq<u8> {
        bytes_of(self.old_txt@)
    }

    /// The text `b` after this entry is applied to it.
    pub open spec fn apply_to(&self, b: Seq<u8>) -> Seq<u8> {
        splice(b, self.start(), self.end(), self.prior())
    }

    /// This entry can be applied to `b`, and what comes out has a length that
    /// fits in `usize`.
    pub open spec fn fits(&self, b: Seq<u8>) -> bool {
        &&& valid_range(b, self.start(), self.end())
        &&& self.apply_to(b).len() <= usize::MAX
    }

    /// `inv` is the entry recorded when this one is applied to `b`: it covers
    /// the bytes this one puts in, and holds the bytes this one takes out.
    pub open spec fn inverted_by(&self, b: Seq<u8>, inv: Entry) -> bool {
        &&& inv.start() == self.start()
        &&& inv.end() == self.start() + self.prior().len()
        &&& inv.prior() == b.subrange(self.start(), self.end())
    }
}

/// Each entry of `stack`, from the top down, applies to the text that the
/// entries above it leave behind, starting from `b`.
pub open spec fn replayable(b: Seq<u8>, stack: Seq<Entry>) -> bool
    decreases stack.len(),
{
    if stack.len() == 0 {
        true
    } else {
        let e = stack.last();
        e.fits(b) && replayable(e.apply_to(b), stack.drop_last())
    }
}

/// The two stacks of recorded edits: `undo` holds the past, `redo` the future
/// that was undone. The top of each is its last element.
#[derive(Debug)]
pub struct History {
    pub undo: Vec<Entry>,
    pub redo: Vec<Entry>,
}

impl Default for History {
    /// Both stacks empty.
    fn default() -> (r: Self)
        ensures
            r.undo@.len() == 0,
            r.redo@.len() == 0,
    {
        History { undo: Vec::new(), redo: Vec::new() }
    }
}

/// An editable text with a cursor and a linear undo/redo history. Offsets
/// count the bytes of the text's UTF-8 encoding.
#[derive(Debug)]
pub struct Buffer {
    pub text: String,
    pub offset: usize,
    pub path: Option<String>,
    pub modified: bool,
    pub history: History,
}

impl Default for Buffer {
    /// An empty, unmodified buffer with no path and no history.
    fn default() -> (r: Self)
        ensures
            r.wf(),
            r.text@.len() == 0,
            r.offset == 0,
            r.path.is_none(),
            !r.modified,
            r.history.undo@.len() == 0,
            r.history.redo@.len() == 0,
    {
        Buffer {
            text: String::new(),
            offset: 0,
            path: None,
            modified: false,
            history: History::default(),
        }
    }
}

impl Buffer {
    /// The text as the bytes that offsets count.
    pub open spec fn bytes(&self) -> Seq<u8> {
        bytes_of(self.text@)
    }

    /// The cursor lies within the text, and both stacks can be replayed from
    /// the current text.
    pub open spec fn wf(&self) -> bool {
        &&& self.bytes().len() <= usize::MAX
        &&& self.offset <= self.bytes().len()
        &&& replayable(self.bytes(), self.history.undo@)
        &&& replayable(self.bytes(), self.history.redo@)
    }

    /// `i` is an offset at which the text may be cut: within it, between characters.
    pub open spec fn is_offset(&self, i: int) -> bool {
        0 <= i <= self.bytes().len() && is_char_boundary(self.bytes(), i)
    }

    /// `new` is this buffer with `e` applied to its text, the cursor moved by
    /// the change in length, and the text marked as modified.
    pub open spec fn applied(&self, new: Buffer, e: Entry) -> bool {
        &&& new.bytes() == e.apply_to(self.bytes())
        &&& new.offset == cursor_after(self.offset as int, e.prior().len() as int, e.end() - e.start())
        &&& new.modified
        &&& new.path == self.path
    }

    /// The two buffers hold the same text, cursor, path, flag and history.
    pub open spec fn same_as(&self, other: Buffer) -> bool {
        &&& self.text == other.text
        &&& self.offset == other.offset
        &&& self.path == other.path
        &&& self.modified == other.modified
        &&& self.history.undo@ == other.history.undo@
        &&& self.history.redo@ == other.history.redo@
    }

    /// Replacing the range between the cursor and `at` by `n` bytes keeps the
    /// cursor, moved by the change in length, within the text: it fails only
    /// when the cursor is the lower end of a range longer than the cursor's
    /// offset plus `n`.
    pub open spec fn shift_keeps_cursor(&self, at: int, n: int) -> bool {
        !(at > self.offset && self.offset + n < at - self.offset)
    }

    /// `new` is this buffer after `t` replaced the range between the cursor
    /// and `at`, with the entry that undoes it on top of the undo stack and
    /// the redo stack cleared.
    pub open spec fn replaced(&self, new: Buffer, at: int, t: Seq<char>) -> bool {
        let lo = if at < self.offset { at } else { self.offset as int };
        let hi = if at < self.offset { self.offset as int } else { at };
        let n = bytes_of(t).len() as int;
        let top = new.history.undo@.last();
        &&& self.shift_keeps_cursor(at, n)
        &&& new.bytes() == splice(self.bytes(), lo, hi, bytes_of(t))
        &&& new.offset == cursor_after(self.offset as int, n, hi - lo)
        &&& new.modified
        &&& new.path == self.path
        &&& new.history.undo@.len() == self.history.undo@.len() + 1
        &&& new.history.undo@.drop_last() == self.history.undo@
        &&& top.start() == lo
        &&& top.end() == lo + n
        &&& top.prior() == self.bytes().subrange(lo, hi)
        &&& new.history.redo@.len() == 0
    }

    /// `new` is this buffer after one undo: nothing changes when the undo
    /// stack is empty; otherwise its top entry is applied and moves, inverted,
    /// onto the redo stack.
    pub open spec fn undone(&self, new: Buffer) -> bool {
        if self.history.undo@.len() == 0 {
            new.same_as(*self)
        } else {
            let e = self.history.undo@.last();
            &&& self.applied(new, e)
            &&& new.history.undo@ == self.history.undo@.drop_last()
            &&& new.history.redo@.len() == self.history.redo@.len() + 1
            &&& new.history.redo@.drop_last() == self.history.redo@
            &&& e.inverted_by(self.bytes(), new.history.redo@.last())
        }
    }

    /// `new` is this buffer after one redo: as an undo, with the two stacks
    /// trading places.
    pub open spec fn redone(&self, new: Buffer) -> bool {
        if self.history.redo@.len() == 0 {
            new.same_as(*self)
        } else {
            let e = self.history.redo@.last();
            &&& self.applied(new, e)
            &&& new.history.redo@ == self.history.redo@.drop_last()
            &&& new.history.undo@.len() == self.history.undo@.len() + 1
            &&& new.history.undo@.drop_last() == self.history.undo@
            &&& e.inverted_by(self.bytes(), new.history.undo@.last())
        }
    }

    pub fn from_text(text: &str) -> (r: Self)
        requires
            bytes_of(text@).len() <= usize::MAX,
        ensures
            r.wf(),
            r.text@ == text@,
            r.offset == r.bytes().len(),
            r.path.is_none(),
            !r.modified,
            r.history.undo@.len() == 0,
            r.history.redo@.len() == 0,
    {
        Self {
            text: text.to_owned(),
            offset: text.len(),
            path: None,
            modified: false,
            history: History::default(),
        }
    }

    /// Puts `text` in place of the bytes of `range` and returns what was there.
    fn edit_internal(&mut self, range: Range<usize>, text: &str) -> (old_txt: String)
        requires
            old(self).bytes().len() <= usize::MAX,
            old(self).offset <= old(self).bytes().len(),
            valid_range(old(self).bytes(), range.start as int, range.end as int),
            old(self).bytes().len() - (range.end - range.start) + bytes_of(text@).len()
                <= usize::MAX,
        ensures
            final(self).bytes() == splice(
                old(self).bytes(),
                range.start as int,
                range.end as int,
                bytes_of(text@),
            ),
            bytes_of(old_txt@) == old(self).bytes().subrange(range.start as int, range.end as int),
            final(self).offset == cursor_after(
                old(self).offset as int,
                bytes_of(text@).len() as int,
                range.end - range.start,
            ),
            final(self).modified,
            final(self).path == old(self).path,
            final(self).history == old(self).history,
    {
        let ghost b = self.bytes();
        let (left, tail) = self.text.as_str().split_at(range.end);
        proof {
            lemma_boundary_in_prefix(b, range.end as int, range.start as int);
        }
        let (head, mid) = left.split_at(range.start);
        let removed = mid.to_owned();
        let mut fresh = String::new();
        fresh.append(head);
        fresh.append(text);
        fresh.append(tail);
        proof {
            lemma_bytes_of_concat(head@, text@);
            lemma_bytes_of_concat(head@ + text@, tail@);
            assert(head.spec_bytes() =~= b.subrange(0, range.start as int));
            assert(mid.spec_bytes() =~= b.subrange(range.start as int, range.end as int));
        }
        self.text = fresh;
        let n = text.len();
        let r = range.end - range.start;
        self.offset = if self.offset >= r {
            self.offset - r + n
        } else if n >= r - self.offset {
            n - (r - self.offset)
        } else {
            0
        };
        self.modified = true;
        removed
    }

    /// Records `path` as the file that backs this buffer.
    pub fn set_path(&mut self, path: String)
        ensures
            final(self).path == Some(path),
            final(self).text == old(self).text,
            final(self).offset == old(self).offset,
            final(self).modified == old(self).modified,
            final(self).history == old(self).history,
    {
        self.path = Some(path);
    }

    /// Moves the cursor to `offset`, which must lie within the text and
    /// between characters.
    pub fn move_offset(&mut self, offset: usize) -> (r: Result<(), EditError>)
        requires
            old(self).wf(),
        ensures
            final(self).wf(),
            r.is_ok() <==> old(self).is_offset(offset as int),
            r.is_ok() ==> *final(self) == (Buffer { offset, ..*old(self) }),
            r is Err ==> *final(self) == *old(self) && r == Err::<(), _>(EditError::InvalidOffset),
    {
        if offset <= self.text.as_str().len() && self.text.as_str().is_char_boundary(offset) {
            self.offset = offset;
            Ok(())
        } else {
            Err(EditError::InvalidOffset)
        }
    }

    /// The range between the cursor and `start`, lower end first.
    pub fn select(&self, start: usize) -> (r: Result<(usize, usize), EditError>)
        requires
            self.wf(),
        ensures
            r.is_ok() <==> start <= self.bytes().len(),
            r is Err ==> r == Err::<(usize, usize), _>(EditError::InvalidOffset),
            r matches Ok((lo, hi)) ==> {
                &&& lo <= hi
                &&& lo == if start < self.offset { start } else { self.offset }
                &&& hi == if start < self.offset { self.offset } else { start }
            },
    {
        if start > self.text.as_str().len() {
            Err(EditError::InvalidOffset)
        } else if start > self.offset {
            Ok((self.offset, start))
        } else {
            Ok((start, self.offset))
        }
    }

    /// Replaces the range between the cursor and `start_idx` by `text`,
    /// records how to undo it, and forgets every undone edit. Refused when
    /// `start_idx` or the cursor is no offset of the text: past its end, or
    /// inside a character (the cursor can land there after a shift by a
    /// change in length); refused too when the shift would move the cursor
    /// below the start of the text.
    pub fn replace(&mut self, start_idx: usize, text: &str) -> (r: Result<(), EditError>)
        requires
            old(self).wf(),
            old(self).bytes().len() + bytes_of(text@).len() <= usize::MAX,
        ensures
            final(self).wf(),
            r.is_ok() <==> {
                &&& old(self).is_offset(start_idx as int)
                &&& old(self).is_offset(old(self).offset as int)
                &&& old(self).shift_keeps_cursor(start_idx as int, bytes_of(text@).len() as int)
            },
            r.is_ok() ==> old(self).replaced(*final(self), start_idx as int, text@),
            r is Err ==> *final(self) == *old(self) && r == Err::<(), _>(EditError::InvalidOffset),
    {
        let s = self.text.as_str();
        let at_ok = start_idx <= s.len() && s.is_char_boundary(start_idx);
        if !at_ok || !s.is_char_boundary(self.offset) {
            return Err(EditError::InvalidOffset);
        }
        let (start, end) = match self.select(start_idx) {
            Ok(p) => p,
            Err(e) => return Err(e),
        };
        if start_idx > self.offset && self.offset + text.len() < start_idx - self.offset {
            return Err(EditError::InvalidOffset);
        }
        let ghost b = self.bytes();
        let ghost undo0 = self.history.undo@;
        let removed = self.edit_internal(start..end, text);
        proof {
            lemma_splice_inverse(b, start as int, end as int, bytes_of(text@));
        }
        let entry = Entry::new(start..(start + text.len()), removed);
        self.history.undo.push(entry);
        self.history.redo.clear();
        proof {
            assert(self.history.undo@.drop_last() =~= undo0);
            assert(entry.apply_to(self.bytes()) == b);
        }
        Ok(())
    }

    /// Applies `e` to the text and returns the entry that undoes it.
    fn revert(&mut self, e: Entry) -> (inv: Entry)
        requires
            old(self).bytes().len() <= usize::MAX,
            old(self).offset <= old(self).bytes().len(),
            e.fits(old(self).bytes()),
        ensures
            old(self).applied(*final(self), e),
            e.inverted_by(old(self).bytes(), inv),
            final(self).history == old(self).history,
            inv.fits(final(self).bytes()),
            inv.apply_to(final(self).bytes()) == old(self).bytes(),
    {
        let ghost b = self.bytes();
        proof {
            lemma_splice_inverse(b, e.start(), e.end(), e.prior());
        }
        let start = e.range.start;
        let removed = self.edit_internal(start..e.range.end, e.old_txt.as_str());
        let inv = Entry::new(start..(start + e.old_txt.as_str().len()), removed);
        proof {
            assert(inv.apply_to(self.bytes()) == b);
        }
        inv
    }

    /// Takes back the last edit, if there is one, and keeps it for redo.
    pub fn undo(&mut self)
        requires
            old(self).wf(),
        ensures
            final(self).wf(),
            old(self).undone(*final(self)),
    {
        let ghost redo0 = self.history.redo@;
        if let Some(last) = self.history.undo.pop() {
            let inv = self.revert(last);
            self.history.redo.push(inv);
            proof {
                assert(self.history.redo@.drop_last() =~= redo0);
            }
        }
    }

    /// Applies again the last undone edit, if there is one, and keeps it for undo.
    pub fn redo(&mut self)
        requires
            old(self).wf(),
        ensures
            final(self).wf(),
            old(self).redone(*final(self)),
    {
        let ghost undo0 = self.history.undo@;
        if let Some(last) = self.history.redo.pop() {
            let inv = self.revert(last);
            self.history.undo.push(inv);
            proof {
                assert(self.history.undo@.drop_last() =~= undo0);
            }
        }
    }
}

} // verus!
