//! A set of buffers, one of them active.
use vstd::prelude::*;
use crate::buffer::Buffer;
use crate::text::bytes_of;

verus! {

#[derive(Debug)]
pub struct Editor {
    buffers: Vec<Buffer>,
    active_idx: usize,
}

impl Default for Editor {
    /// An editor with no buffers.
    fn default() -> (r: Self)
        ensures
            r.wf(),
            r.buffers().len() == 0,
            r.active() == 0,
    {
        Editor { buffers: Vec::new(), active_idx: 0 }
    }
}

impl Editor {
    /// The buffers, in the order they were opened.
    pub closed spec fn buffers(&self) -> Seq<Buffer> {
        self.buffers@
    }

    /// The index of the active buffer.
    pub closed spec fn active(&self) -> int {
        self.active_idx as int
    }

    /// Every buffer is well formed.
    pub open spec fn wf(&self) -> bool {
        forall|i: int| 0 <= i < self.buffers().len() ==> #[trigger] self.buffers()[i].wf()
    }

    /// An editor holding one buffer with `text`, cursor at its end, active.
    pub fn from_text(text: &str) -> (r: Self)
        requires
            bytes_of(text@).len() <= usize::MAX,
        ensures
            r.wf(),
            r.buffers().len() == 1,
            r.active() == 0,
            r.buffers()[0].text@ == text@,
            r.buffers()[0].offset == r.buffers()[0].bytes().len(),
            r.buffers()[0].path.is_none(),
            !r.buffers()[0].modified,
            r.buffers()[0].history.undo@.len() == 0,
            r.buffers()[0].history.redo@.len() == 0,
    {
        Self { buffers: vec![Buffer::from_text(text)], active_idx: 0 }
    }

    /// The active buffer, to edit in place; `None` when there is none.
    pub fn active_buffer(&mut self) -> (r: Option<&mut Buffer>)
        ensures
            r.is_some() <==> old(self).active() < old(self).buffers().len(),
            final(self).active() == old(self).active(),
            r is None ==> final(self).buffers() == old(self).buffers(),
            r is Some ==> {
                &&& *r.unwrap() == old(self).buffers()[old(self).active()]
                &&& final(self).buffers() == old(self).buffers().update(
                    old(self).active(),
                    *final(r.unwrap()),
                )
            },
    {
        if self.active_idx < self.buffers.len() {
            Some(&mut self.buffers[self.active_idx])
        } else {
            None
        }
    }
}

} // verus!
