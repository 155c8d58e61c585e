use vstd::prelude::*;
use crate::ram::Ram;

verus! {

/// The closed set of peripherals that can sit on the bus.
pub enum Device {
    Ram(Ram),
}

impl Device {
    pub open spec fn wf(&self) -> bool {
        match self {
            Device::Ram(r) => r.wf(),
        }
    }

    /// Whether the device owns `addr`; this never depends on the contents.
    pub open spec fn claims(&self, addr: u16) -> bool {
        match self {
            Device::Ram(r) => r.claims(addr),
        }
    }

    pub open spec fn peek(&self, addr: u16) -> u8 {
        match self {
            Device::Ram(r) => r.peek(addr),
        }
    }

    /// Every byte the device holds.
    pub open spec fn contents(&self) -> Seq<u8> {
        match self {
            Device::Ram(r) => r.data@,
        }
    }

    pub fn within_range(&self, addr: u16) -> (r: bool)
        ensures
            r == self.claims(addr),
    {
        match self {
            Device::Ram(r) => r.within_range(addr),
        }
    }

    pub fn read(&self, addr: u16) -> (r: u8)
        requires
            self.wf(),
        ensures
            r == self.peek(addr),
    {
        match self {
            Device::Ram(r) => r.read(addr),
        }
    }

    pub fn write(&mut self, addr: u16, value: u8)
        requires
            old(self).wf(),
        ensures
            final(self).wf(),
            forall|a: u16| #[trigger] final(self).claims(a) == old(self).claims(a),
            forall|a: u16| #[trigger] final(self).peek(a) == if a == addr { value } else { old(self).peek(a) },
    {
        match self {
            Device::Ram(r) => r.write(addr, value),
        }
    }

    /// An independent copy of the device and its contents.
    pub fn duplicate(&self) -> (r: Device)
        requires
            self.wf(),
        ensures
            r.wf(),
            r.contents() == self.contents(),
            forall|a: u16| #[trigger] r.claims(a) == self.claims(a),
            forall|a: u16| #[trigger] r.peek(a) == self.peek(a),
    {
        match self {
            Device::Ram(r) => Device::Ram(r.duplicate()),
        }
    }
}

} // verus!
