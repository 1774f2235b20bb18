//! A fixed-size byte array with bounds-checked read and write, backing the
//! work-RAM, high-RAM, video-RAM and object-attribute regions.

use vstd::prelude::*;

verus! {

pub struct Ram {
    pub ram: Vec<u8>,
}

impl View for Ram {
    type V = Seq<u8>;

    open spec fn view(&self) -> Seq<u8> {
        self.ram@
    }
}

impl Ram {
    /// A zero-filled array of `count` bytes.
    pub fn new(count: usize) -> (r: Ram)
        ensures
            r@.len() == count,
            forall|i: int| 0 <= i < count ==> r@[i] == 0u8,
    {
        let mut ram: Vec<u8> = Vec::new();
        let mut i: usize = 0;
        while i < count
            invariant
                i <= count,
                ram@.len() == i,
                forall|j: int| 0 <= j < i ==> ram@[j] == 0u8,
            decreases count - i,
        {
            ram.push(0);
            i = i + 1;
        }
        Ram { ram }
    }

    pub fn read(&self, addr: u16) -> (v: u8)
        requires
            addr < self@.len(),
        ensures
            v == self@[addr as int],
    {
        self.ram[addr as usize]
    }

    pub fn write(&mut self, addr: u16, value: u8)
        requires
            addr < old(self)@.len(),
        ensures
            final(self)@ == old(self)@.update(addr as int, value),
    {
        self.ram.set(addr as usize, value);
    }
}

} // verus!
