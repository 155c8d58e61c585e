use vstd::prelude::*;
use crate::device::Device;
use crate::disassembler::ORIGIN;
use crate::cpu::{applied, charged, executed, Cpu};

verus! {

/// Whether some device of `devs` claims `addr`.
pub open spec fn claimed(devs: Seq<Device>, addr: u16) -> bool {
    exists|i: int| 0 <= i < devs.len() && (#[trigger] devs[i]).claims(addr)
}

/// The byte that the first device claiming `addr` holds there.
pub open spec fn read_from(devs: Seq<Device>, addr: u16) -> u8
    decreases devs.len(),
{
    if devs.len() == 0 {
        0
    } else if devs[0].claims(addr) {
        devs[0].peek(addr)
    } else {
        read_from(devs.drop_first(), addr)
    }
}

/// Routes byte accesses to its devices and drives the attached processor.
pub struct Bus {
    pub processor: Option<Cpu>,
    pub devices: Vec<Device>,
}

proof fn lemma_read_first(devs: Seq<Device>, i: int, addr: u16)
    requires
        0 <= i < devs.len(),
        devs[i].claims(addr),
        forall|j: int| 0 <= j < i ==> !(#[trigger] devs[j]).claims(addr),
    ensures
        read_from(devs, addr) == devs[i].peek(addr),
    decreases i,
{
    if i > 0 {
        let rest = devs.drop_first();
        assert forall|j: int| 0 <= j < i - 1 implies !(#[trigger] rest[j]).claims(addr) by {
            assert(rest[j] == devs[j + 1]);
        }
        lemma_read_first(rest, i - 1, addr);
    }
}

/// Storing `value` at `addr` in every claiming device: the first claiming
/// device now answers `value` there, and nothing else changes.
proof fn lemma_read_after_write(old_devs: Seq<Device>, new_devs: Seq<Device>, addr: u16, value: u8, b: u16)
    requires
        old_devs.len() == new_devs.len(),
        forall|i: int, a: u16| 0 <= i < old_devs.len() ==> #[trigger] new_devs[i].claims(a) == old_devs[i].claims(a),
        forall|i: int, a: u16| 0 <= i < old_devs.len() && #[trigger] old_devs[i].claims(addr) ==> #[trigger] new_devs[i].peek(a) == if a == addr { value } else { old_devs[i].peek(a) },
        forall|i: int, a: u16| 0 <= i < old_devs.len() && !#[trigger] old_devs[i].claims(addr) ==> #[trigger] new_devs[i].peek(a) == old_devs[i].peek(a),
    ensures
        read_from(new_devs, b) == if b == addr && claimed(old_devs, addr) { value } else { read_from(old_devs, b) },
        claimed(new_devs, b) == claimed(old_devs, b),
    decreases old_devs.len(),
{
    if old_devs.len() > 0 {
        let o = old_devs.drop_first();
        let n = new_devs.drop_first();
        assert forall|i: int, a: u16| 0 <= i < o.len() implies #[trigger] n[i].claims(a) == o[i].claims(a) by {
            assert(n[i] == new_devs[i + 1] && o[i] == old_devs[i + 1]);
        }
        assert forall|i: int, a: u16| 0 <= i < o.len() && #[trigger] o[i].claims(addr) implies #[trigger] n[i].peek(a) == if a == addr { value } else { o[i].peek(a) } by {
            assert(n[i] == new_devs[i + 1] && o[i] == old_devs[i + 1]);
        }
        assert forall|i: int, a: u16| 0 <= i < o.len() && !#[trigger] o[i].claims(addr) implies #[trigger] n[i].peek(a) == o[i].peek(a) by {
            assert(n[i] == new_devs[i + 1] && o[i] == old_devs[i + 1]);
        }
        lemma_read_after_write(o, n, addr, value, b);
        assert(new_devs[0].claims(b) == old_devs[0].claims(b));
        assert(new_devs[0].claims(addr) == old_devs[0].claims(addr));
        if claimed(old_devs, addr) && !old_devs[0].claims(addr) {
            let k = choose|k: int| 0 <= k < old_devs.len() && (#[trigger] old_devs[k]).claims(addr);
            assert(o[k - 1] == old_devs[k]);
        }
        if claimed(o, addr) {
            let k = choose|k: int| 0 <= k < o.len() && (#[trigger] o[k]).claims(addr);
            assert(o[k] == old_devs[k + 1]);
        }
        if claimed(old_devs, b) && !old_devs[0].claims(b) {
            let k = choose|k: int| 0 <= k < old_devs.len() && (#[trigger] old_devs[k]).claims(b);
            assert(o[k - 1] == old_devs[k]);
        }
        if claimed(o, b) {
            let k = choose|k: int| 0 <= k < o.len() && (#[trigger] o[k]).claims(b);
            assert(o[k] == old_devs[k + 1]);
        }
        if claimed(n, b) {
            let k = choose|k: int| 0 <= k < n.len() && (#[trigger] n[k]).claims(b);
            assert(n[k] == new_devs[k + 1]);
        }
        if claimed(new_devs, b) && !new_devs[0].claims(b) {
            let k = choose|k: int| 0 <= k < new_devs.len() && (#[trigger] new_devs[k]).claims(b);
            assert(n[k - 1] == new_devs[k]);
        }
    }
}

/// Two buses with the same devices read alike.
proof fn lemma_same_devices(a: &Bus, b: &Bus, prior: &Bus, store: Option<(u16, u8)>)
    requires
        a.devices@ == b.devices@,
    ensures
        a.wf() == b.wf(),
        a.covers_all() == b.covers_all(),
        applied(a, prior, store) == applied(b, prior, store),
{
    assert forall|x: u16| #[trigger] a.covers(x) == b.covers(x) by {
        assert(claimed(a.devices@, x) == claimed(b.devices@, x));
    }
    assert forall|x: u16| #[trigger] a.peek(x) == b.peek(x) by {
        assert(read_from(a.devices@, x) == read_from(b.devices@, x));
    }
    if a.covers_all() {
        assert forall|x: u16| #[trigger] b.covers(x) by {
            assert(a.covers(x));
        }
    }
    if b.covers_all() {
        assert forall|x: u16| #[trigger] a.covers(x) by {
            assert(b.covers(x));
        }
    }
    if let Some((addr, v)) = store {
        if a.same_but(prior, addr, v) {
            assert forall|x: u16| #[trigger] b.peek(x) == if x == addr && prior.covers(addr) { v } else { prior.peek(x) } by {
                assert(a.peek(x) == b.peek(x));
            }
            assert forall|x: u16| #[trigger] b.covers(x) == prior.covers(x) by {
                assert(a.covers(x) == b.covers(x));
            }
        }
        if b.same_but(prior, addr, v) {
            assert forall|x: u16| #[trigger] a.peek(x) == if x == addr && prior.covers(addr) { v } else { prior.peek(x) } by {
                assert(a.peek(x) == b.peek(x));
            }
            assert forall|x: u16| #[trigger] a.covers(x) == prior.covers(x) by {
                assert(a.covers(x) == b.covers(x));
            }
        }
    }
}

/// The registers of the attached processor.
pub open spec fn cpu_registers(bus: Bus) -> crate::registers::Registers {
    bus.processor.unwrap().registers
}

impl Bus {
    pub open spec fn wf(&self) -> bool {
        forall|i: int| 0 <= i < self.devices@.len() ==> (#[trigger] self.devices@[i]).wf()
    }

    /// Whether a read of `addr` is routed to some device.
    pub open spec fn covers(&self, addr: u16) -> bool {
        claimed(self.devices@, addr)
    }

    /// Every address is claimed by some device.
    pub open spec fn covers_all(&self) -> bool {
        forall|a: u16| #[trigger] self.covers(a)
    }

    /// The byte that a read of `addr` returns.
    pub open spec fn peek(&self, addr: u16) -> u8 {
        read_from(self.devices@, addr)
    }

    /// The bus after `write(addr, value)`, as seen through reads.
    pub open spec fn same_but(&self, other: &Bus, addr: u16, value: u8) -> bool {
        &&& self.wf()
        &&& forall|a: u16| #[trigger] self.covers(a) == other.covers(a)
        &&& forall|a: u16| #[trigger] self.peek(a) == if a == addr && other.covers(addr) { value } else { other.peek(a) }
    }

    pub fn new() -> (r: Bus)
        ensures
            r.processor.is_none(),
            r.devices@.len() == 0,
            r.wf(),
    {
        Bus { processor: None, devices: Vec::new() }
    }

    /// Attaches the processor that `tick` drives.
    pub fn connect_processor(&mut self, processor: Cpu)
        ensures
            final(self).processor == Some(processor),
            final(self).devices@ == old(self).devices@,
    {
        self.processor = Some(processor);
    }

    /// Appends a device; returns its handle, the position that
    /// `remove_device` takes.
    pub fn add_device(&mut self, device: Device) -> (r: usize)
        requires
            old(self).wf(),
            device.wf(),
            old(self).devices@.len() < usize::MAX,
        ensures
            final(self).devices@ == old(self).devices@.push(device),
            final(self).processor == old(self).processor,
            final(self).wf(),
            r == old(self).devices@.len(),
    {
        let at = self.devices.len();
        self.devices.push(device);
        at
    }

    /// Detaches the device at position `at`; an index past the end is ignored.
    pub fn remove_device(&mut self, at: usize)
        requires
            old(self).wf(),
        ensures
            final(self).devices@ == if at < old(self).devices@.len() {
                old(self).devices@.remove(at as int)
            } else {
                old(self).devices@
            },
            final(self).processor == old(self).processor,
            final(self).wf(),
    {
        if at >= self.devices.len() {
            return;
        }
        self.devices.remove(at);
    }

    /// Reads through the first device, in registration order, that claims `addr`.
    pub fn read(&self, addr: u16) -> (r: u8)
        requires
            self.wf(),
            self.covers(addr),
        ensures
            r == self.peek(addr),
    {
        let ghost devs = self.devices@;
        let mut i: usize = 0;
        while i < self.devices.len()
            invariant
                self.wf(),
                devs == self.devices@,
                claimed(devs, addr),
                forall|j: int| 0 <= j < i ==> !(#[trigger] devs[j]).claims(addr),
            decreases self.devices@.len() - i,
        {
            if self.devices[i].within_range(addr) {
                proof {
                    lemma_read_first(devs, i as int, addr);
                }
                return self.devices[i].read(addr);
            }
            i = i + 1;
        }
        proof {
            let k = choose|k: int| 0 <= k < devs.len() && (#[trigger] devs[k]).claims(addr);
            assert(!devs[k].claims(addr));
        }
        0
    }

    /// Stores `value` at `addr` in every device that claims it.
    pub fn write(&mut self, addr: u16, value: u8)
        requires
            old(self).wf(),
        ensures
            final(self).same_but(old(self), addr, value),
            final(self).devices@.len() == old(self).devices@.len(),
            final(self).processor == old(self).processor,
            forall|i: int, a: u16| 0 <= i < old(self).devices@.len() ==> #[trigger] final(self).devices@[i].peek(a)
                == if a == addr && old(self).devices@[i].claims(addr) { value } else { old(self).devices@[i].peek(a) },
            forall|i: int, a: u16| 0 <= i < old(self).devices@.len() ==> #[trigger] final(self).devices@[i].claims(a)
                == old(self).devices@[i].claims(a),
    {
        let ghost old_devs = self.devices@;
        let mut i: usize = 0;
        while i < self.devices.len()
            invariant
                self.wf(),
                self.processor == old(self).processor,
                old_devs == old(self).devices@,
                self.devices@.len() == old_devs.len(),
                forall|j: int, a: u16| 0 <= j < old_devs.len() ==> #[trigger] self.devices@[j].claims(a) == old_devs[j].claims(a),
                forall|j: int, a: u16| 0 <= j < i && #[trigger] old_devs[j].claims(addr) ==> #[trigger] self.devices@[j].peek(a) == if a == addr { value } else { old_devs[j].peek(a) },
                forall|j: int, a: u16| (0 <= j < old_devs.len() && !(0 <= j < i && old_devs[j].claims(addr))) ==> #[trigger] self.devices@[j].peek(a) == old_devs[j].peek(a),
            decreases self.devices@.len() - i,
        {
            if self.devices[i].within_range(addr) {
                assert(self.devices@[i as int].wf());
                self.devices[i].write(addr, value);
            }
            i = i + 1;
        }
        proof {
            assert forall|a: u16| #[trigger] self.covers(a) == old(self).covers(a) && self.peek(a) == if a == addr && old(self).covers(addr) { value } else { old(self).peek(a) } by {
                lemma_read_after_write(old_devs, self.devices@, addr, value, a);
            }
        }
    }

    /// How one cycle changes the attached processor and the devices: see
    /// `Cpu::tick`.
    pub open spec fn ticked(&self, before: &Bus) -> bool {
        let c = before.processor.unwrap();
        let n = self.processor.unwrap();
        &&& c.cycle == 0 ==> {
            &&& n.opcode == before.peek(c.registers.pc)
            &&& n.registers == executed(c.registers, before).regs
            &&& n.cycle == charged(c.registers, before) - 1
            &&& applied(self, before, executed(c.registers, before).store)
        }
        &&& c.cycle != 0 ==> {
            &&& n == (Cpu { cycle: (c.cycle - 1) as u32, ..c })
            &&& self.devices@ == before.devices@
        }
    }

    /// Writes `program` byte by byte from the origin on.
    pub fn load_program(&mut self, program: Vec<u8>)
        requires
            old(self).wf(),
            program@.len() <= 0x8000,
        ensures
            final(self).wf(),
            forall|a: u16| #[trigger] final(self).covers(a) == old(self).covers(a),
            forall|a: u16| #[trigger] final(self).peek(a) == if ORIGIN <= a < ORIGIN + program@.len() && old(self).covers(a) {
                program@[a - ORIGIN]
            } else {
                old(self).peek(a)
            },
            final(self).processor == old(self).processor,
            final(self).devices@.len() == old(self).devices@.len(),
    {
        let mut i: usize = 0;
        while i < program.len()
            invariant
                self.wf(),
                i <= program@.len() <= 0x8000,
                self.processor == old(self).processor,
                self.devices@.len() == old(self).devices@.len(),
                forall|a: u16| #[trigger] self.covers(a) == old(self).covers(a),
                forall|a: u16| #[trigger] self.peek(a) == if ORIGIN <= a < ORIGIN + i && old(self).covers(a) {
                    program@[a - ORIGIN]
                } else {
                    old(self).peek(a)
                },
            decreases program@.len() - i,
        {
            let ghost prev = *self;
            let addr = ORIGIN + i as u16;
            self.write(addr, program[i]);
            i = i + 1;
            assert forall|a: u16| #[trigger] self.peek(a) == if ORIGIN <= a < ORIGIN + i && old(self).covers(a) {
                program@[a - ORIGIN]
            } else {
                old(self).peek(a)
            } by {
                assert(prev.covers(addr) == old(self).covers(addr));
                assert(prev.peek(a) == self.peek(a) || a == addr);
            }
            assert forall|a: u16| #[trigger] self.covers(a) == old(self).covers(a) by {
                assert(prev.covers(a) == self.covers(a));
            }
        }
    }

    /// Advances the attached processor by one cycle.
    pub fn tick(&mut self)
        requires
            old(self).wf(),
            old(self).covers_all(),
            old(self).processor.is_some(),
        ensures
            final(self).wf(),
            final(self).covers_all(),
            final(self).processor.is_some(),
            final(self).devices@.len() == old(self).devices@.len(),
            final(self).ticked(old(self)),
    {
        let ghost before = *self;
        let mut cpu = self.processor.unwrap();
        cpu.tick(self);
        let ghost mid = *self;
        self.processor = Some(cpu);
        proof {
            lemma_same_devices(&*self, &mid, &before, executed(cpu_registers(before), &before).store);
        }
    }
}

} // verus!
