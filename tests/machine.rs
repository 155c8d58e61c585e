use emu6502::bus::Bus;
use emu6502::catalog::{Instruction, Op, Reg};
use emu6502::cpu::Cpu;
use emu6502::debugger::{App, State};
use emu6502::device::Device;
use emu6502::disassembler::Disassembler;
use emu6502::image::parse_program;
use emu6502::modes::AddrMode;
use emu6502::ram::Ram;
use emu6502::registers::Flag;

fn text(d: &Disassembler) -> Vec<String> {
    d.program.clone()
}

fn cpu_of(app: &App) -> Cpu {
    app.inner_machine_state.bus.processor.unwrap()
}

/// A machine with `program` loaded at the origin and the processor reset.
fn machine_with(program: &[u8]) -> App {
    let mut app = App::new();
    app.load(&program.to_vec());
    app.reset();
    app
}

#[test]
fn write_then_read_returns_written_byte() {
    let mut app = App::new();
    app.write(0x0200, 0xAB);
    assert_eq!(app.read(0x0200), 0xAB);
}

#[test]
fn last_write_wins() {
    let mut app = App::new();
    app.write(0x1234, 1);
    app.write(0x1234, 2);
    assert_eq!(app.read(0x1234), 2);
    assert_eq!(app.read(0x1235), 0);
}

#[test]
fn load_reset_step_loads_accumulator() {
    let mut app = machine_with(&[0xA9, 0x05]);
    assert!(app.step());
    let cpu = cpu_of(&app);
    assert_eq!(cpu.registers.a, 5);
    assert_eq!(cpu.registers.pc, 0x8002);
    assert_eq!(cpu.cycle, 1);
}

#[test]
fn initiate_state_points_reset_vector_at_origin() {
    let s = State::initiate_state();
    assert_eq!(s.bus.read(0xFFFC), 0x00);
    assert_eq!(s.bus.read(0xFFFD), 0x80);
    let cpu = s.bus.processor.unwrap();
    assert_eq!(cpu.registers.pc, 0x8000);
    assert_eq!(cpu.registers.sp, 0xFD);
    assert_eq!(cpu.cycle, 0);
}

#[test]
fn remaining_ticks_only_drain_cycles() {
    let mut app = machine_with(&[0xAD, 0x00, 0x02, 0xEA]);
    app.write(0x0200, 0x42);
    assert!(app.step());
    let cpu = cpu_of(&app);
    assert_eq!(cpu.registers.a, 0x42);
    assert_eq!(cpu.cycle, 3);
    // mid-instruction the program counter is past the instruction, at NOP
    app.inner_machine_state.bus.tick();
    let cpu2 = cpu_of(&app);
    assert_eq!(cpu2.cycle, 2);
    assert_eq!(cpu2.registers, cpu.registers);
}

#[test]
fn page_cross_with_read_costs_extra_cycle() {
    // LDX #$01 ; LDA $10FF,X
    let mut app = machine_with(&[0xA2, 0x01, 0xBD, 0xFF, 0x10]);
    app.write(0x1100, 0x77);
    assert!(app.step());
    assert_eq!(cpu_of(&app).cycle, 1);
    app.inner_machine_state.bus.tick();
    assert!(app.step());
    let cpu = cpu_of(&app);
    assert_eq!(cpu.registers.a, 0x77);
    assert_eq!(cpu.cycle, 4);
}

#[test]
fn no_page_cross_costs_base_cycles() {
    // LDX #$01 ; LDA $1000,X
    let mut app = machine_with(&[0xA2, 0x01, 0xBD, 0x00, 0x10]);
    app.write(0x1001, 0x33);
    app.step();
    app.inner_machine_state.bus.tick();
    app.step();
    let cpu = cpu_of(&app);
    assert_eq!(cpu.registers.a, 0x33);
    assert_eq!(cpu.cycle, 3);
}

#[test]
fn page_cross_with_store_costs_base_cycles() {
    // LDX #$01 ; STA $10FF,X
    let mut app = machine_with(&[0xA2, 0x01, 0x9D, 0xFF, 0x10]);
    app.step();
    app.inner_machine_state.bus.tick();
    app.step();
    assert_eq!(cpu_of(&app).cycle, 4);
    assert_eq!(app.read(0x1100), 0);
}

#[test]
fn taken_branch_without_page_cross_costs_base_cycles() {
    // BNE -2 (zero flag is clear after reset)
    let mut app = machine_with(&[0xD0, 0xFE]);
    assert!(app.step());
    let cpu = cpu_of(&app);
    assert_eq!(cpu.registers.pc, 0x8000);
    assert_eq!(cpu.cycle, 1);
}

#[test]
fn untaken_branch_falls_through() {
    // BEQ +4
    let mut app = machine_with(&[0xF0, 0x04]);
    app.step();
    assert_eq!(cpu_of(&app).registers.pc, 0x8002);
}

#[test]
fn add_with_carry_sets_overflow() {
    // LDA #$50 ; ADC #$50
    let mut app = machine_with(&[0xA9, 0x50, 0x69, 0x50]);
    app.step();
    app.inner_machine_state.bus.tick();
    app.step();
    let r = cpu_of(&app).registers;
    assert_eq!(r.a, 0xA0);
    assert!(r.get_flag(Flag::O));
    assert!(r.get_flag(Flag::N));
    assert!(!r.get_flag(Flag::C));
    assert!(!r.get_flag(Flag::Z));
}

#[test]
fn subtract_with_borrow() {
    // SEC ; LDA #$05 ; SBC #$06
    let mut app = machine_with(&[0x38, 0xA9, 0x05, 0xE9, 0x06]);
    for _ in 0..3 {
        app.step();
        app.inner_machine_state.bus.tick();
    }
    let r = cpu_of(&app).registers;
    assert_eq!(r.a, 0xFF);
    assert!(!r.get_flag(Flag::C));
    assert!(r.get_flag(Flag::N));
}

#[test]
fn store_and_increment_memory() {
    // LDA #$FF ; STA $10 ; INC $10
    let mut app = machine_with(&[0xA9, 0xFF, 0x85, 0x10, 0xE6, 0x10]);
    app.step();
    app.inner_machine_state.bus.tick();
    app.step();
    for _ in 0..2 {
        app.inner_machine_state.bus.tick();
    }
    assert_eq!(app.read(0x0010), 0xFF);
    app.step();
    assert_eq!(app.read(0x0010), 0x00);
    assert!(cpu_of(&app).registers.get_flag(Flag::Z));
    assert_eq!(cpu_of(&app).cycle, 4);
}

#[test]
fn compare_sets_flags() {
    // LDX #$10 ; CPX #$10
    let mut app = machine_with(&[0xA2, 0x10, 0xE0, 0x10]);
    app.step();
    app.inner_machine_state.bus.tick();
    app.step();
    let r = cpu_of(&app).registers;
    assert!(r.get_flag(Flag::Z));
    assert!(r.get_flag(Flag::C));
    assert!(!r.get_flag(Flag::N));
}

#[test]
fn jump_indirect_wraps_within_page() {
    // JMP ($10FF): low byte at $10FF, high byte at $1000
    let mut app = machine_with(&[0x6C, 0xFF, 0x10]);
    app.write(0x10FF, 0x34);
    app.write(0x1000, 0x12);
    app.write(0x1100, 0x99);
    app.step();
    assert_eq!(cpu_of(&app).registers.pc, 0x1234);
    assert_eq!(cpu_of(&app).cycle, 4);
}

#[test]
fn undefined_opcode_is_two_cycle_no_op() {
    let mut app = machine_with(&[0x02, 0xEA]);
    let before = cpu_of(&app).registers;
    app.step();
    let cpu = cpu_of(&app);
    assert_eq!(cpu.opcode, 0x02);
    assert_eq!(cpu.registers.pc, 0x8001);
    assert_eq!(cpu.registers.a, before.a);
    assert_eq!(cpu.cycle, 1);
    let ins = Instruction::lookup(0x02);
    assert_eq!(ins.op, Op::Illegal);
    assert_eq!(ins.cycles, 2);
}

#[test]
fn catalog_entries() {
    let lda = Instruction::lookup(0xA9);
    assert_eq!(lda.mode, AddrMode::Immediate);
    assert_eq!(lda.cycles, 2);
    assert_eq!(lda.op, Op::Load(Reg::A));
    let sta = Instruction::lookup(0x91);
    assert_eq!(sta.mode, AddrMode::IndirectIndexed);
    assert_eq!(sta.cycles, 6);
    assert_eq!(sta.op, Op::Store(Reg::A));
}

#[test]
fn disassembly_lines_and_addresses() {
    let d = Disassembler::disassemble(&vec![0xA9, 0x05, 0x8D, 0x00, 0x02, 0xEA, 0xD0, 0xFE]);
    assert_eq!(text(&d), vec!["LDA #$05", "STA $0200", "NOP", "BNE $8006"]);
    assert_eq!(d.counters, vec![0x8000, 0x8002, 0x8005, 0x8006]);
    assert_eq!(d.line_index(0x8005), Some(2));
    assert_eq!(d.line_index(0x8001), None);
    assert!(d.starts_at(0x8000));
    assert!(!d.starts_at(0x8003));
}

#[test]
fn disassembly_operand_forms() {
    let d = Disassembler::disassemble(&vec![
        0xB5, 0x10, 0xB6, 0x20, 0xBD, 0x34, 0x12, 0xB9, 0xCD, 0xAB, 0x6C, 0x00, 0x30, 0xA1, 0x44, 0xB1, 0x55, 0x02,
    ]);
    assert_eq!(
        text(&d),
        vec!["LDA $10,X", "LDX $20,Y", "LDA $1234,X", "LDA $ABCD,Y", "JMP ($3000)", "LDA ($44,X)", "LDA ($55),Y", "???"]
    );
}

#[test]
fn disassembly_stops_at_truncated_instruction() {
    let d = Disassembler::disassemble(&vec![0xEA, 0xAD, 0x01]);
    assert_eq!(text(&d), vec!["NOP"]);
    assert_eq!(d.counters, vec![0x8000]);
    let e = Disassembler::disassemble(&vec![0xA9]);
    assert!(e.program.is_empty());
    let empty = Disassembler::disassemble(&vec![]);
    assert!(empty.program.is_empty() && empty.counters.is_empty());
}

#[test]
fn disassembly_is_deterministic() {
    let bytes = vec![0xA2, 0x01, 0xCA, 0xD0, 0xFD, 0x4C, 0x00, 0x80];
    let a = Disassembler::disassemble(&bytes);
    let b = Disassembler::disassemble(&bytes);
    assert_eq!(a.program, b.program);
    assert_eq!(a.counters, b.counters);
    assert_eq!(text(&a), vec!["LDX #$01", "DEX", "BNE $8002", "JMP $8000"]);
}

#[test]
fn snapshot_restore_round_trip() {
    let mut app = machine_with(&[0xA9, 0x07, 0x85, 0x20]);
    let saved = app.inner_machine_state.snapshot();
    app.step();
    app.inner_machine_state.bus.tick();
    app.step();
    assert_eq!(app.read(0x20), 0x07);
    app.inner_machine_state.restore(saved);
    let cpu = cpu_of(&app);
    assert_eq!(cpu.registers.pc, 0x8000);
    assert_eq!(cpu.registers.a, 0);
    assert_eq!(cpu.cycle, 0);
    assert_eq!(app.read(0x20), 0);
    assert_eq!(app.read(0x8000), 0xA9);
    assert_eq!(text(&app.inner_machine_state.dis), vec!["LDA #$07", "STA $20"]);
    // the restored processor ticks against the restored bus
    app.step();
    assert_eq!(cpu_of(&app).registers.a, 7);
}

#[test]
fn rollbacks_undo_steps() {
    let mut app = machine_with(&[0xA9, 0x07, 0x85, 0x20, 0xE8]);
    let start = cpu_of(&app);
    assert!(app.step());
    assert!(app.step());
    assert!(app.step());
    assert_eq!(app.previous_machine_state.len(), 3);
    assert!(app.rollback());
    assert!(app.rollback());
    assert!(app.rollback());
    assert_eq!(cpu_of(&app), start);
    assert_eq!(app.read(0x20), 0);
    assert!(!app.rollback());
    assert_eq!(cpu_of(&app), start);
}

#[test]
fn rollback_on_empty_history_is_no_op() {
    let mut app = App::new();
    assert!(!app.rollback());
    assert_eq!(cpu_of(&app).registers.pc, 0x8000);
}

#[test]
fn step_refused_off_instruction_start() {
    let mut app = App::new();
    assert!(!app.step());
    assert!(app.previous_machine_state.is_empty());
}

#[test]
fn bus_routes_reads_to_first_and_writes_to_all() {
    let mut bus = Bus::new();
    assert_eq!(bus.add_device(Device::Ram(Ram::new())), 0);
    let mut second = Ram::new();
    second.write(0x10, 9);
    assert_eq!(bus.add_device(Device::Ram(second)), 1);
    assert_eq!(bus.read(0x10), 0);
    bus.write(0x11, 5);
    assert_eq!(bus.read(0x11), 5);
    bus.remove_device(0);
    assert_eq!(bus.read(0x10), 9);
    assert_eq!(bus.read(0x11), 5);
    bus.remove_device(7);
    assert_eq!(bus.devices.len(), 1);
}

#[test]
fn bus_tick_drives_connected_processor() {
    let mut bus = Bus::new();
    bus.add_device(Device::Ram(Ram::new()));
    bus.write(0x0000, 0xE8);
    bus.connect_processor(Cpu::new());
    bus.tick();
    let cpu = bus.processor.unwrap();
    assert_eq!(cpu.registers.x, 1);
    assert_eq!(cpu.registers.pc, 1);
    assert_eq!(cpu.cycle, 1);
    bus.tick();
    assert_eq!(bus.processor.unwrap().cycle, 0);
}

#[test]
fn ram_starts_zeroed() {
    let r = Ram::new();
    assert_eq!(r.data.len(), 65536);
    assert!(r.data.iter().all(|b| *b == 0));
    assert!(r.within_range(0xFFFF));
}

#[test]
fn status_byte_packs_flags() {
    let s = State::initiate_state();
    let mut r = s.bus.processor.unwrap().registers;
    assert_eq!(r.status(), 0x20);
    r.set_flag(Flag::N, true);
    r.set_flag(Flag::C, true);
    assert_eq!(r.status(), 0xA1);
}

#[test]
fn memory_pages_wrap() {
    let mut app = App::new();
    app.page_down();
    assert_eq!(app.memory_page_index, 0xFE);
    app.page_up();
    assert_eq!(app.memory_page_index, 0);
    app.page_up();
    assert_eq!(app.memory_page_index, 1);
}

#[test]
fn image_tokens_are_parsed_and_malformed_skipped() {
    assert_eq!(parse_program("A9 05\n8d zz 00 02\t+ff 100 -1 +"), vec![0xA9, 0x05, 0x8D, 0x00, 0x02, 0xFF]);
    assert_eq!(parse_program(""), Vec::<u8>::new());
    assert_eq!(parse_program("   \n  "), Vec::<u8>::new());
    assert_eq!(parse_program("0x10 7 0A"), vec![0x07, 0x0A]);
}

#[test]
fn bus_load_program_writes_from_origin() {
    let mut bus = Bus::new();
    bus.add_device(Device::Ram(Ram::new()));
    bus.load_program(vec![1, 2, 3]);
    assert_eq!(bus.read(0x7FFF), 0);
    assert_eq!(bus.read(0x8000), 1);
    assert_eq!(bus.read(0x8001), 2);
    assert_eq!(bus.read(0x8002), 3);
    assert_eq!(bus.read(0x8003), 0);
}

#[test]
fn removing_added_device_detaches_it() {
    let mut bus = Bus::new();
    bus.add_device(Device::Ram(Ram::new()));
    let mut extra = Ram::new();
    extra.write(0x40, 3);
    let handle = bus.add_device(Device::Ram(extra));
    bus.remove_device(handle);
    assert_eq!(bus.devices.len(), 1);
    bus.write(0x41, 8);
    assert_eq!(bus.read(0x40), 0);
}

#[test]
fn write_reaches_every_claiming_device() {
    let mut bus = Bus::new();
    bus.add_device(Device::Ram(Ram::new()));
    bus.add_device(Device::Ram(Ram::new()));
    bus.write(0x0300, 0x5A);
    for d in bus.devices.iter() {
        match d {
            Device::Ram(r) => {
                assert_eq!(r.data[0x0300], 0x5A);
                assert_eq!(r.data[0x0301], 0);
            }
        }
    }
}
