use vstd::prelude::*;
use crate::bus::Bus;
use crate::cpu::{Cpu, RESET_VECTOR};
use crate::device::Device;
use crate::disassembler::{decode_from, Disassembler, ORIGIN};
use crate::ram::Ram;
use crate::modes::word;
use crate::registers::{baseline_registers, Registers};

verus! {

/// What a machine state is made of, as values: the attached processor, the
/// contents of each device in order, and the listing.
pub struct StateView {
    pub processor: Option<Cpu>,
    pub devices: Seq<Seq<u8>>,
    pub listing: Seq<(u16, Seq<char>)>,
}

/// The contents of each device, in order.
pub open spec fn contents_of(devs: Seq<Device>) -> Seq<Seq<u8>> {
    devs.map_values(|d: Device| d.contents())
}

/// One machine: the bus, which owns its devices and the processor it
/// drives, and the listing of the loaded program.
pub struct State {
    pub bus: Bus,
    pub dis: Disassembler,
}

impl State {
    pub open spec fn wf(&self) -> bool {
        &&& self.bus.wf()
        &&& self.bus.covers_all()
        &&& self.bus.processor.is_some()
        &&& self.dis.wf()
    }

    pub open spec fn view(&self) -> StateView {
        StateView {
            processor: self.bus.processor,
            devices: contents_of(self.bus.devices@),
            listing: self.dis.listing(),
        }
    }

    pub open spec fn cpu(&self) -> Cpu {
        self.bus.processor.unwrap()
    }

    /// A machine with one zeroed RAM, the reset vector pointing at the
    /// origin, and the processor reset.
    pub fn initiate_state() -> (r: State)
        ensures
            r.wf(),
            r.bus.devices@.len() == 1,
            r.cpu().registers == (Registers { pc: ORIGIN, ..baseline_registers() }),
            r.cpu().cycle == 0,
            r.dis.listing().len() == 0,
            forall|a: u16| #[trigger] r.bus.peek(a) == if a == RESET_VECTOR + 1 { 0x80u8 } else { 0u8 },
    {
        let mut bus = Bus::new();
        let ram = Ram::new();
        bus.add_device(Device::Ram(ram));
        proof {
            assert forall|a: u16| #[trigger] bus.covers(a) && bus.peek(a) == 0 by {
                assert(bus.devices@[0].claims(a));
                assert(bus.devices@[0].peek(a) == ram.peek(a));
            }
        }
        let ghost b0 = bus;
        bus.write(RESET_VECTOR, 0x00);
        let ghost b1 = bus;
        bus.write(RESET_VECTOR + 1, 0x80);
        assert forall|a: u16| #[trigger] bus.peek(a) == if a == RESET_VECTOR + 1 { 0x80u8 } else { 0u8 } by {
            assert(b0.peek(a) == 0);
            assert(b1.peek(a) == 0);
        }
        let mut cpu = Cpu::new();
        cpu.reset(&bus);
        let ghost b2 = bus;
        bus.connect_processor(cpu);
        proof {
            assert forall|a: u16| #[trigger] bus.covers(a) by {
                assert(bus.devices@[0].claims(a));
            }
            assert forall|a: u16| #[trigger] bus.peek(a) == if a == RESET_VECTOR + 1 { 0x80u8 } else { 0u8 } by {
                assert(b2.peek(a) == bus.peek(a));
            }
        }
        State { bus, dis: Disassembler::new() }
    }

    /// An independent deep copy of the whole machine.
    pub fn snapshot(&self) -> (r: State)
        requires
            self.wf(),
        ensures
            r.wf(),
            r.view() == self.view(),
    {
        let mut devices: Vec<Device> = Vec::new();
        let mut i: usize = 0;
        while i < self.bus.devices.len()
            invariant
                self.wf(),
                i <= self.bus.devices@.len(),
                devices@.len() == i,
                forall|j: int| 0 <= j < i ==> (#[trigger] devices@[j]).wf(),
                forall|j: int| 0 <= j < i ==> (#[trigger] devices@[j]).contents() == self.bus.devices@[j].contents(),
                forall|j: int, a: u16| 0 <= j < i ==> (#[trigger] devices@[j].claims(a)) == self.bus.devices@[j].claims(a),
            decreases self.bus.devices@.len() - i,
        {
            assert(self.bus.devices@[i as int].wf());
            let d = self.bus.devices[i].duplicate();
            devices.push(d);
            i = i + 1;
        }
        let bus = Bus { processor: self.bus.processor, devices };
        proof {
            assert forall|a: u16| #[trigger] bus.covers(a) by {
                assert(self.bus.covers(a));
                let k = choose|k: int| 0 <= k < self.bus.devices@.len() && (#[trigger] self.bus.devices@[k]).claims(a);
                assert(bus.devices@[k].claims(a));
            }
        }
        let r = State { bus, dis: self.dis.duplicate() };
        assert(r.view().devices =~= self.view().devices);
        r
    }

    /// Replaces this machine by `saved`; the processor that comes back is
    /// the one owned by the restored bus.
    pub fn restore(&mut self, saved: State)
        ensures
            *final(self) == saved,
    {
        *self = saved;
    }
}

/// The debugging session: the live machine, the snapshots taken before each
/// step (most recent last), and the memory page on display.
pub struct App {
    pub memory_page_index: i32,
    pub previous_machine_state: Vec<State>,
    pub inner_machine_state: State,
}

/// The page shown after paging up from `index`.
pub open spec fn page_after(index: int) -> int {
    (index + 1) % 0xFF
}

/// The page shown after paging down from `index`.
pub open spec fn page_before(index: int) -> int {
    if index == 0 { 0xFE } else { (index - 1) % 0xFF }
}

impl App {
    /// The live state and every saved one are well formed, and the page on
    /// display is one of the pages that paging cycles through.
    pub open spec fn wf(&self) -> bool {
        &&& 0 <= self.memory_page_index < 0xFF
        &&& self.inner_machine_state.wf()
        &&& forall|i: int| 0 <= i < self.previous_machine_state@.len() ==> (#[trigger] self.previous_machine_state@[i]).wf()
    }

    /// The saved states, oldest first.
    pub open spec fn history(&self) -> Seq<StateView> {
        self.previous_machine_state@.map_values(|s: State| s.view())
    }

    pub open spec fn live(&self) -> StateView {
        self.inner_machine_state.view()
    }

    pub open spec fn pc(&self) -> u16 {
        self.inner_machine_state.cpu().registers.pc
    }

    /// Whether the listing has an instruction starting at the program counter.
    pub open spec fn at_instruction(&self) -> bool {
        exists|j: int| 0 <= j < self.inner_machine_state.dis.counters@.len()
            && self.inner_machine_state.dis.counters@[j] == self.pc()
    }

    /// A fresh session on a freshly initiated machine.
    pub fn new() -> (r: App)
        ensures
            r.wf(),
            r.history().len() == 0,
            r.memory_page_index == 0,
            r.pc() == ORIGIN,
    {
        App { memory_page_index: 0, previous_machine_state: Vec::new(), inner_machine_state: State::initiate_state() }
    }

    /// Resets the processor from the reset vector.
    pub fn reset(&mut self)
        requires
            old(self).wf(),
        ensures
            final(self).wf(),
            final(self).inner_machine_state.cpu().registers == (Registers {
                pc: word(
                    old(self).inner_machine_state.bus.peek(RESET_VECTOR),
                    old(self).inner_machine_state.bus.peek((RESET_VECTOR + 1) as u16),
                ),
                ..baseline_registers()
            }),
            final(self).inner_machine_state.cpu().cycle == 0,
            final(self).inner_machine_state.bus.devices@ == old(self).inner_machine_state.bus.devices@,
            final(self).inner_machine_state.dis == old(self).inner_machine_state.dis,
            final(self).previous_machine_state == old(self).previous_machine_state,
            final(self).memory_page_index == old(self).memory_page_index,
    {
        let mut cpu = self.inner_machine_state.bus.processor.unwrap();
        cpu.reset(&self.inner_machine_state.bus);
        let ghost before = self.inner_machine_state.bus;
        self.inner_machine_state.bus.connect_processor(cpu);
        proof {
            assert forall|a: u16| #[trigger] self.inner_machine_state.bus.covers(a) by {
                assert(before.covers(a));
            }
        }
    }

    /// Reads a byte of the live machine.
    pub fn read(&self, address: u16) -> (r: u8)
        requires
            self.wf(),
        ensures
            r == self.inner_machine_state.bus.peek(address),
    {
        self.inner_machine_state.bus.read(address)
    }

    /// Writes a byte into the live machine.
    pub fn write(&mut self, address: u16, data: u8)
        requires
            old(self).wf(),
        ensures
            final(self).wf(),
            final(self).inner_machine_state.bus.same_but(&old(self).inner_machine_state.bus, address, data),
            final(self).inner_machine_state.bus.devices@.len() == old(self).inner_machine_state.bus.devices@.len(),
            forall|i: int, a: u16| 0 <= i < old(self).inner_machine_state.bus.devices@.len()
                ==> #[trigger] final(self).inner_machine_state.bus.devices@[i].peek(a) == if a == address
                    && old(self).inner_machine_state.bus.devices@[i].claims(address) {
                    data
                } else {
                    old(self).inner_machine_state.bus.devices@[i].peek(a)
                },
            forall|i: int, a: u16| 0 <= i < old(self).inner_machine_state.bus.devices@.len()
                ==> #[trigger] final(self).inner_machine_state.bus.devices@[i].claims(a)
                == old(self).inner_machine_state.bus.devices@[i].claims(a),
            final(self).inner_machine_state.bus.processor == old(self).inner_machine_state.bus.processor,
            final(self).inner_machine_state.dis == old(self).inner_machine_state.dis,
            final(self).previous_machine_state == old(self).previous_machine_state,
            final(self).memory_page_index == old(self).memory_page_index,
    {
        self.inner_machine_state.bus.write(address, data);
        proof {
            assert forall|a: u16| #[trigger] self.inner_machine_state.bus.covers(a) by {
                assert(old(self).inner_machine_state.bus.covers(a));
            }
        }
    }

    /// Writes `program` from the origin on and replaces the listing by its
    /// disassembly. The registers are left as they are.
    pub fn load(&mut self, program: &Vec<u8>)
        requires
            old(self).wf(),
            program@.len() <= 0x8000,
        ensures
            final(self).wf(),
            forall|a: u16| #[trigger] final(self).inner_machine_state.bus.peek(a) == if ORIGIN <= a < ORIGIN + program@.len() {
                program@[a - ORIGIN]
            } else {
                old(self).inner_machine_state.bus.peek(a)
            },
            final(self).inner_machine_state.dis.listing() == decode_from(program@, 0),
            final(self).inner_machine_state.bus.processor == old(self).inner_machine_state.bus.processor,
            final(self).previous_machine_state == old(self).previous_machine_state,
            final(self).memory_page_index == old(self).memory_page_index,
    {
        let bytes = program.clone();
        assert(bytes@ =~= program@);
        self.inner_machine_state.bus.load_program(bytes);
        proof {
            assert forall|a: u16| #[trigger] self.inner_machine_state.bus.covers(a) by {
                assert(old(self).inner_machine_state.bus.covers(a));
            }
        }
        self.inner_machine_state.dis = Disassembler::disassemble(program);
    }

    /// Executes one cycle, first saving the live state, but only while the
    /// program counter stands at the start of a listed instruction.
    pub fn step(&mut self) -> (r: bool)
        requires
            old(self).wf(),
        ensures
            final(self).wf(),
            r == old(self).at_instruction(),
            r ==> final(self).history() == old(self).history().push(old(self).live()),
            r ==> final(self).inner_machine_state.bus.ticked(&old(self).inner_machine_state.bus),
            r ==> final(self).inner_machine_state.dis == old(self).inner_machine_state.dis,
            !r ==> *final(self) == *old(self),
            final(self).memory_page_index == old(self).memory_page_index,
    {
        let pc = self.inner_machine_state.bus.processor.unwrap().registers.pc;
        if !self.inner_machine_state.dis.starts_at(pc) {
            return false;
        }
        let saved = self.inner_machine_state.snapshot();
        self.previous_machine_state.push(saved);
        self.inner_machine_state.bus.tick();
        assert(self.history() =~= old(self).history().push(old(self).live()));
        true
    }

    /// Brings back the most recent saved state; `false` when there is none.
    pub fn rollback(&mut self) -> (r: bool)
        requires
            old(self).wf(),
        ensures
            final(self).wf(),
            r == (old(self).history().len() > 0),
            r ==> final(self).live() == old(self).history().last(),
            r ==> final(self).history() == old(self).history().drop_last(),
            !r ==> *final(self) == *old(self),
            final(self).memory_page_index == old(self).memory_page_index,
    {
        if self.previous_machine_state.len() == 0 {
            return false;
        }
        match self.previous_machine_state.pop() {
            Some(saved) => {
                self.inner_machine_state.restore(saved);
                assert(self.history() =~= old(self).history().drop_last());
                true
            },
            None => false,
        }
    }

    /// Shows the next memory page.
    pub fn page_up(&mut self)
        requires
            old(self).wf(),
        ensures
            final(self).wf(),
            final(self).memory_page_index == page_after(old(self).memory_page_index as int),
            final(self).previous_machine_state == old(self).previous_machine_state,
            final(self).inner_machine_state == old(self).inner_machine_state,
    {
        self.memory_page_index = (self.memory_page_index + 1) % 0xFF;
    }

    /// Shows the previous memory page, wrapping from the first to the last.
    pub fn page_down(&mut self)
        requires
            old(self).wf(),
        ensures
            final(self).wf(),
            final(self).memory_page_index == page_before(old(self).memory_page_index as int),
            final(self).previous_machine_state == old(self).previous_machine_state,
            final(self).inner_machine_state == old(self).inner_machine_state,
    {
        if self.memory_page_index == 0 {
            self.memory_page_index = 0xFF - 1;
        } else {
            self.memory_page_index = (self.memory_page_index - 1) % 0xFF;
        }
    }
}

} // verus!
