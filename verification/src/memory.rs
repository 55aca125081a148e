//! Flat byte-addressable RAM.
//!
//! Addresses are not wrapped or clamped here: every opcode-level address
//! computation is performed by the caller, and an out-of-range address is a
//! structural fault of the running program, excluded by precondition.

use vstd::prelude::*;

use crate::constants::SYSTEM_RAM;

verus! {

/// The contents of an empty RAM: every byte zero.
pub open spec fn zero_ram() -> Seq<u8> {
    Seq::new(SYSTEM_RAM as nat, |i: int| 0u8)
}

/// Interface of a byte store: read, write and wipe, against a mathematical
/// sequence of bytes.
pub trait Storage {
    /// The bytes currently held.
    spec fn contents(&self) -> Seq<u8>;

    fn read(&self, addr: u16) -> (r: u8)
        requires
            (addr as int) < self.contents().len(),
        ensures
            r == self.contents()[addr as int],
    ;

    fn write(&mut self, addr: u16, value: u8)
        requires
            (addr as int) < old(self).contents().len(),
        ensures
            final(self).contents() == old(self).contents().update(addr as int, value),
    ;

    fn clear(&mut self)
        ensures
            final(self).contents().len() == old(self).contents().len(),
            forall|i: int|
                0 <= i < final(self).contents().len() ==> final(self).contents()[i] == 0u8,
    ;
}

/// Fixed-size system RAM.
#[derive(Debug)]
pub struct Memory {
    data: Vec<u8>,
}

impl View for Memory {
    type V = Seq<u8>;

    closed spec fn view(&self) -> Seq<u8> {
        self.data@
    }
}

impl Memory {
    /// The RAM always spans the full address space.
    pub open spec fn wf(&self) -> bool {
        self@.len() == SYSTEM_RAM as int
    }

    pub fn new() -> (r: Memory)
        ensures
            r.wf(),
            r@ == zero_ram(),
    {
        let data: Vec<u8> = make_bytes(SYSTEM_RAM as usize, 0u8);
        proof {
            assert(data@ =~= zero_ram());
        }
        Memory { data }
    }

    pub fn read(&self, addr: u16) -> (r: u8)
        requires
            self.wf(),
            addr < SYSTEM_RAM,
        ensures
            r == self@[addr as int],
    {
        self.data[addr as usize]
    }

    /// A copy of the bytes in `[addr, addr + len)`.
    pub fn read_slice(&self, addr: u16, len: u16) -> (r: Vec<u8>)
        requires
            self.wf(),
            addr as int + len as int <= SYSTEM_RAM as int,
        ensures
            r@ == self@.subrange(addr as int, addr as int + len as int),
    {
        let mut r: Vec<u8> = Vec::new();
        let mut j: u16 = 0;
        while j < len
            invariant
                self.wf(),
                addr as int + len as int <= SYSTEM_RAM as int,
                j <= len,
                r@ =~= self@.subrange(addr as int, addr as int + j as int),
            decreases len as int - j as int,
        {
            r.push(self.data[(addr + j) as usize]);
            j = j + 1;
            proof {
                assert(r@ =~= self@.subrange(addr as int, addr as int + j as int));
            }
        }
        proof {
            assert(r@ =~= self@.subrange(addr as int, addr as int + len as int));
        }
        r
    }

    pub fn write(&mut self, addr: u16, value: u8)
        requires
            old(self).wf(),
            addr < SYSTEM_RAM,
        ensures
            final(self).wf(),
            final(self)@ == old(self)@.update(addr as int, value),
    {
        self.data.set(addr as usize, value);
    }

    pub fn clear(&mut self)
        requires
            old(self).wf(),
        ensures
            final(self).wf(),
            final(self)@ == zero_ram(),
    {
        self.data = make_bytes(SYSTEM_RAM as usize, 0u8);
        proof {
            assert(self@ =~= zero_ram());
        }
    }
}

impl Storage for Memory {
    closed spec fn contents(&self) -> Seq<u8> {
        self.data@
    }

    fn read(&self, addr: u16) -> (r: u8) {
        self.data[addr as usize]
    }

    fn write(&mut self, addr: u16, value: u8) {
        self.data.set(addr as usize, value);
    }

    fn clear(&mut self) {
        let n: usize = self.data.len();
        self.data = make_bytes(n, 0u8);
    }
}

/// A vector of `len` copies of `value`.
pub fn make_bytes(len: usize, value: u8) -> (r: Vec<u8>)
    ensures
        r@.len() == len as int,
        forall|i: int| 0 <= i < len as int ==> r@[i] == value,
{
    let mut r: Vec<u8> = Vec::new();
    let mut j: usize = 0;
    while j < len
        invariant
            j <= len,
            r@.len() == j as int,
            forall|i: int| 0 <= i < j as int ==> r@[i] == value,
        decreases len as int - j as int,
    {
        r.push(value);
        j = j + 1;
    }
    r
}

} // verus!
