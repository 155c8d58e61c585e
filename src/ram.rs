use vstd::prelude::*;

verus! {

/// Size of the address space, and of a RAM device.
pub const MEMORY_SIZE: usize = 65536;

/// A flat store that claims every address.
pub struct Ram {
    pub data: Vec<u8>,
}

impl Ram {
    pub open spec fn wf(&self) -> bool {
        self.data@.len() == MEMORY_SIZE
    }

    pub open spec fn claims(&self, addr: u16) -> bool {
        true
    }

    pub open spec fn peek(&self, addr: u16) -> u8 {
        self.data@[addr as int]
    }

    /// A zero-filled RAM.
    pub fn new() -> (r: Ram)
        ensures
            r.wf(),
            forall|a: u16| r.peek(a) == 0,
    {
        Ram { data: vec![0u8; MEMORY_SIZE] }
    }

    pub fn within_range(&self, addr: u16) -> (r: bool)
        ensures
            r == self.claims(addr),
    {
        true
    }

    pub fn read(&self, addr: u16) -> (r: u8)
        requires
            self.wf(),
        ensures
            r == self.peek(addr),
    {
        self.data[addr as usize]
    }

    pub fn write(&mut self, addr: u16, value: u8)
        requires
            old(self).wf(),
        ensures
            final(self).data@ == old(self).data@.update(addr as int, value),
            final(self).wf(),
    {
        self.data[addr as usize] = value;
    }

    /// An independent copy of the contents.
    pub fn duplicate(&self) -> (r: Ram)
        ensures
            r.data@ == self.data@,
    {
        let data = self.data.clone();
        assert(data@ =~= self.data@);
        Ram { data }
    }
}

} // verus!
