//! The call stack of return addresses.
//!
//! At most sixteen addresses are ever held. Overflow and underflow are not
//! clamped: `push` and `pop` report them to the caller, which treats both
//! as fatal conditions of the running program.

use vstd::prelude::*;

use crate::constants::STACK_DEPTH;

verus! {

/// A bounded stack of 16-bit return addresses.
#[derive(Debug)]
pub struct Stack {
    data: Vec<u16>,
}

impl View for Stack {
    type V = Seq<u16>;

    closed spec fn view(&self) -> Seq<u16> {
        self.data@
    }
}

impl Stack {
    /// Never deeper than sixteen entries.
    pub open spec fn wf(&self) -> bool {
        self@.len() <= STACK_DEPTH as int
    }

    pub fn new() -> (r: Stack)
        ensures
            r.wf(),
            r@ == Seq::<u16>::empty(),
    {
        let data: Vec<u16> = Vec::new();
        proof {
            assert(data@ =~= Seq::<u16>::empty());
        }
        Stack { data }
    }

    /// Push a return address; reports `false`, leaving the stack unchanged,
    /// when sixteen addresses are already pending.
    pub fn push(&mut self, value: u16) -> (ok: bool)
        requires
            old(self).wf(),
        ensures
            final(self).wf(),
            ok == (old(self)@.len() < STACK_DEPTH as int),
            ok ==> final(self)@ == old(self)@.push(value),
            !ok ==> final(self)@ == old(self)@,
    {
        if self.data.len() < STACK_DEPTH {
            self.data.push(value);
            true
        } else {
            false
        }
    }

    /// Pop the most recent return address; `None` when the stack is empty.
    pub fn pop(&mut self) -> (r: Option<u16>)
        requires
            old(self).wf(),
        ensures
            final(self).wf(),
            old(self)@.len() == 0 ==> r is None && final(self)@ == old(self)@,
            old(self)@.len() > 0 ==> r == Some(old(self)@.last()) && final(self)@ == old(
                self,
            )@.drop_last(),
    {
        self.data.pop()
    }

    pub fn clear(&mut self)
        ensures
            final(self).wf(),
            final(self)@ == Seq::<u16>::empty(),
    {
        self.data.clear();
        proof {
            assert(self@ =~= Seq::<u16>::empty());
        }
    }
}

} // verus!
