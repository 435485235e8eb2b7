//! A counter with its history kept as one sequence of tagged changes and a
//! position: changes before the position are done, those after it were
//! undone and are kept in inverted form.
use vstd::prelude::*;

verus! {

/// One change of the counter.
#[derive(Debug)]
pub enum Type {
    Insert(i32),
    Delete(i32),
}

/// What a change adds to the counter.
pub open spec fn effect(t: Type) -> int {
    match t {
        Type::Insert(v) => v as int,
        Type::Delete(v) => -(v as int),
    }
}

/// The change that takes `t` back.
pub open spec fn inverse(t: Type) -> Type {
    match t {
        Type::Insert(v) => Type::Delete(v),
        Type::Delete(v) => Type::Insert(v),
    }
}

#[derive(Debug)]
pub struct History {
    pub stack: Vec<Type>,
    pub pos: usize,
}

#[derive(Debug)]
pub struct Data {
    pub count: i32,
    pub his: History,
}

impl Default for History {
    /// No changes, position at the start.
    fn default() -> (r: Self)
        ensures
            r.stack@.len() == 0,
            r.pos == 0,
    {
        History { stack: Vec::new(), pos: 0 }
    }
}

impl Default for Data {
    /// A counter at zero with no history.
    fn default() -> (r: Self)
        ensures
            r.wf(),
            r.count == 0,
            r.his.stack@.len() == 0,
            r.his.pos == 0,
    {
        Data { count: 0, his: History::default() }
    }
}

/// `v` fits in an `i32`.
pub open spec fn fits_i32(v: int) -> bool {
    i32::MIN <= v <= i32::MAX
}

impl Data {
    /// The position lies within the history.
    pub open spec fn wf(&self) -> bool {
        self.his.pos <= self.his.stack@.len()
    }

    /// Adds `val` and records the change at the position, which moves past it.
    pub fn insert(&mut self, val: i32)
        requires
            old(self).wf(),
            fits_i32(old(self).count + val),
        ensures
            final(self).wf(),
            final(self).count == old(self).count + val,
            final(self).his.stack@ == old(self).his.stack@.insert(
                old(self).his.pos as int,
                Type::Insert(val),
            ),
            final(self).his.pos == old(self).his.pos + 1,
    {
        self.count += val;
        self.his.stack.insert(self.his.pos, Type::Insert(val));
        // the new length is a `usize`, and the position lies below it
        let len: usize = self.his.stack.len();
        assert(self.his.pos < len);
        self.his.pos += 1;
    }

    /// Subtracts `val` and records the change at the position, which moves past it.
    pub fn delete(&mut self, val: i32)
        requires
            old(self).wf(),
            fits_i32(old(self).count - val),
        ensures
            final(self).wf(),
            final(self).count == old(self).count - val,
            final(self).his.stack@ == old(self).his.stack@.insert(
                old(self).his.pos as int,
                Type::Delete(val),
            ),
            final(self).his.pos == old(self).his.pos + 1,
    {
        self.count -= val;
        self.his.stack.insert(self.his.pos, Type::Delete(val));
        // the new length is a `usize`, and the position lies below it
        let len: usize = self.his.stack.len();
        assert(self.his.pos < len);
        self.his.pos += 1;
    }

    /// Takes back the change just before the position, if any: the counter
    /// loses its effect, it is kept inverted, and the position moves before it.
    pub fn undo(&mut self)
        requires
            old(self).wf(),
            old(self).his.pos > 0 ==> fits_i32(
                old(self).count - effect(old(self).his.stack@[old(self).his.pos - 1]),
            ),
        ensures
            final(self).wf(),
            old(self).his.pos == 0 ==> final(self).count == old(self).count
                && final(self).his.stack@ == old(self).his.stack@ && final(self).his.pos == 0,
            old(self).his.pos > 0 ==> {
                let i = old(self).his.pos - 1;
                let t = old(self).his.stack@[i];
                &&& final(self).count == old(self).count - effect(t)
                &&& final(self).his.stack@ == old(self).his.stack@.update(i, inverse(t))
                &&& final(self).his.pos == i
            },
    {
        if self.his.pos <= 0 {
            return ;
        };
        let ghost s0 = self.his.stack@;
        self.his.pos -= 1;
        match self.his.stack.remove(self.his.pos) {
            Type::Insert(x) => { self.delete(x) },
            Type::Delete(y) => self.insert(y),
        }
        self.his.pos -= 1;
        proof {
            assert(self.his.stack@ =~= s0.update(self.his.pos as int, inverse(s0[self.his.pos as int])));
        }
    }

    /// Applies again the undone change at the position, if any: the counter
    /// gets back its effect, it is kept as done, and the position moves past it.
    pub fn redo(&mut self)
        requires
            old(self).wf(),
            old(self).his.pos < old(self).his.stack@.len() ==> fits_i32(
                old(self).count - effect(old(self).his.stack@[old(self).his.pos as int]),
            ),
        ensures
            final(self).wf(),
            old(self).his.pos >= old(self).his.stack@.len() ==> final(self).count == old(self).count
                && final(self).his.stack@ == old(self).his.stack@ && final(self).his.pos == old(self).his.pos,
            old(self).his.pos < old(self).his.stack@.len() ==> {
                let i = old(self).his.pos as int;
                let t = old(self).his.stack@[i];
                &&& final(self).count == old(self).count - effect(t)
                &&& final(self).his.stack@ == old(self).his.stack@.update(i, inverse(t))
                &&& final(self).his.pos == i + 1
            },
    {
        if self.his.pos >= self.his.stack.len() {
            return ;
        };
        let ghost s0 = self.his.stack@;
        let ghost p0 = self.his.pos;
        match self.his.stack.remove(self.his.pos) {
            Type::Insert(x) => self.delete(x),
            Type::Delete(y) => self.insert(y),
        }
        proof {
            assert(self.his.stack@ =~= s0.update(p0 as int, inverse(s0[p0 as int])));
        }
    }
}

} // verus!
