//! The sixteen-key input latch.
//!
//! The external keypad collaborator overwrites all sixteen slots once per
//! frame; the executor only reads them. The "awaiting a key" sub-state of
//! the blocking key-wait opcode lives on the interpreter core, not here.

use vstd::prelude::*;

verus! {

/// Number of keys on the pad.
pub const KEY_COUNT: usize = 16;

/// One boolean per hexadecimal key: `true` while the key is held down.
#[derive(Debug)]
pub struct InputBuffer {
    buffer: Vec<bool>,
}

impl View for InputBuffer {
    type V = Seq<bool>;

    closed spec fn view(&self) -> Seq<bool> {
        self.buffer@
    }
}

impl InputBuffer {
    /// There is always one slot per key.
    pub open spec fn wf(&self) -> bool {
        self@.len() == KEY_COUNT as int
    }

    pub fn new() -> (r: InputBuffer)
        ensures
            r.wf(),
            forall|i: int| 0 <= i < KEY_COUNT as int ==> !r@[i],
    {
        InputBuffer { buffer: make_flags(KEY_COUNT, false) }
    }

    pub fn get(&self, key: usize) -> (r: bool)
        requires
            self.wf(),
            key < KEY_COUNT,
        ensures
            r == self@[key as int],
    {
        self.buffer[key]
    }

    /// Same read as `get`, under the executor's historical name.
    pub fn get_key(&self, key: usize) -> (r: bool)
        requires
            self.wf(),
            key < KEY_COUNT,
        ensures
            r == self@[key as int],
    {
        self.buffer[key]
    }

    /// The whole latch at once, for consumers that scan every key.
    pub fn get_buffer(&self) -> (r: &Vec<bool>)
        requires
            self.wf(),
        ensures
            r@ == self@,
    {
        &self.buffer
    }

    pub fn set(&mut self, key: usize, is_pressed: bool)
        requires
            old(self).wf(),
            key < KEY_COUNT,
        ensures
            final(self).wf(),
            final(self)@ == old(self)@.update(key as int, is_pressed),
    {
        self.buffer.set(key, is_pressed);
    }

    pub fn clear(&mut self)
        ensures
            final(self).wf(),
            forall|i: int| 0 <= i < KEY_COUNT as int ==> !final(self)@[i],
    {
        self.buffer = make_flags(KEY_COUNT, false);
    }
}

/// A vector of `len` copies of `value`.
fn make_flags(len: usize, value: bool) -> (r: Vec<bool>)
    ensures
        r@.len() == len as int,
        forall|i: int| 0 <= i < len as int ==> r@[i] == value,
{
    let mut r: Vec<bool> = Vec::new();
    let mut j: usize = 0;
    while j < len
        invariant
            j <= len,
            r@.len() == j as int,
            forall|i: int| 0 <= i < j as int ==> r@[i] == value,
        decreases len as int - j as int,
    {
        r.push(value);
        j = j + 1;
    }
    r
}

} // verus!
