use dunes::bus::{Bus, DuNesBus, Pins};
use dunes::cartridge::NromCartridge;
use dunes::cpu::Cpu;

fn cartridge(program: &[u8]) -> NromCartridge {
    let mut rom = vec![0x4e, 0x45, 0x53, 0x1a, 1, 1, 0, 0, 0, 0, 0, 0, 0, 0, 0, 0];
    let mut prg = vec![0xea; 0x4000];
    prg[..program.len()].copy_from_slice(program);
    // The reset vector points at 0x8000.
    prg[0x3ffc] = 0x00;
    prg[0x3ffd] = 0x80;
    rom.extend_from_slice(&prg);
    rom.resize(16 + 0x4000 + 0x2000, 0);
    NromCartridge::new(&rom)
}

fn pins(address: u16, data: u8) -> Pins {
    Pins { address, data, irq: false, nmi: false, rst: false }
}

#[test]
fn ram_is_mirrored() {
    let mut bus = DuNesBus::new(cartridge(&[]));
    let mut p = pins(0x0801, 0x42);
    bus.write(&mut p);
    assert_eq!(bus.read_unclocked(0x0001), 0x42);
    assert_eq!(bus.read_unclocked(0x1801), 0x42);
    assert_eq!(bus.ram[1], 0x42);
}

#[test]
fn every_access_clocks_the_ppu_three_dots() {
    let mut bus = DuNesBus::new(cartridge(&[]));
    let mut p = pins(0x0000, 0);
    bus.read(&mut p);
    assert_eq!(bus.ppu.cycle, 3);
    bus.write(&mut p);
    assert_eq!(bus.ppu.cycle, 6);
}

#[test]
fn cartridge_space_reads_prg() {
    let mut bus = DuNesBus::new(cartridge(&[0xa9, 0x42]));
    assert_eq!(bus.read_unclocked(0x8000), 0xa9);
    assert_eq!(bus.read_unclocked(0xc001), 0x42);
    assert_eq!(bus.read_unclocked(0xfffd), 0x80);
    // I/O registers read 0.
    assert_eq!(bus.read_unclocked(0x4016), 0);
    assert_eq!(bus.peek(0x8001), 0x42);
}

#[test]
fn prg_ram_through_the_bus() {
    let mut bus = DuNesBus::new(cartridge(&[]));
    let mut p = pins(0x6010, 0x99);
    bus.write(&mut p);
    assert_eq!(bus.read_unclocked(0x6010), 0x99);
    // A write to ROM changes nothing.
    let mut q = pins(0x8000, 0x11);
    bus.write(&mut q);
    assert_eq!(bus.read_unclocked(0x8000), 0xea);
}

#[test]
fn ppu_registers_through_the_bus() {
    let mut bus = DuNesBus::new(cartridge(&[]));
    bus.write(&mut pins(0x2006, 0x20));
    bus.write(&mut pins(0x2006, 0x40));
    bus.write(&mut pins(0x2007, 0x77));
    assert_eq!(bus.ppu.read_data(0x2040), 0x77);
    bus.ppu.status.set_vblank(true);
    let mut p = pins(0x2002, 0);
    bus.read(&mut p);
    assert_eq!(p.data & 0x80, 0x80);
    assert!(!bus.ppu.status.vblank());
    // PPUCTRL is not readable: the read gives 0.
    let mut q = pins(0x2000, 0xff);
    bus.read(&mut q);
    assert_eq!(q.data, 0);
}

#[test]
fn processor_runs_a_program_on_the_bus() {
    // LDA #$42; STA $0300; JMP $8005
    let program = [0xa9, 0x42, 0x8d, 0x00, 0x03, 0x4c, 0x05, 0x80];
    let mut cpu = Cpu::new(DuNesBus::new(cartridge(&program)));
    cpu.step();
    assert_eq!(cpu.pc, 0x8000);
    cpu.step();
    cpu.step();
    assert_eq!(cpu.bus.ram[0x300], 0x42);
    cpu.step();
    assert_eq!(cpu.pc, 0x8005);
    // Seven reset cycles and 2 + 4 + 3 for the instructions, three dots each.
    assert_eq!(cpu.cycles, 16);
    assert_eq!(cpu.bus.ppu.cycle, 48);
}

#[test]
fn disassembly_lines() {
    // LDA #$42; STA $0300, X; JMP ($1234); BNE -4; ASL A
    let program = [0xa9, 0x42, 0x9d, 0x00, 0x03, 0x6c, 0x34, 0x12, 0xd0, 0xfc, 0x0a];
    let mut cpu = Cpu::new(DuNesBus::new(cartridge(&program)));
    cpu.step();
    let lines = cpu.disassemble();
    assert_eq!(lines.len(), 15);
    assert_eq!(lines[0], "8000: LDA #$42      ");
    assert_eq!(lines[1], "8002: STA $0300, X  ");
    assert_eq!(lines[2], "8005: JMP ($1234)   ");
    assert_eq!(lines[3], "8008: BNE $8006     ");
    assert_eq!(lines[4], "800A: ASL A         ");
    assert_eq!(lines[5], "800B: NOP           ");
}

#[test]
fn disassembly_of_zero_page_and_indirect_modes() {
    // LDX $10, Y; LDA ($20, X); LDA ($30), Y; INC $40, X
    let program = [0xb6, 0x10, 0xa1, 0x20, 0xb1, 0x30, 0xf6, 0x40];
    let mut cpu = Cpu::new(DuNesBus::new(cartridge(&program)));
    cpu.step();
    let lines = cpu.disassemble();
    assert_eq!(lines[0], "8000: LDX $10, Y    ");
    assert_eq!(lines[1], "8002: LDA ($20, X)  ");
    assert_eq!(lines[2], "8004: LDA ($30), Y  ");
    assert_eq!(lines[3], "8006: INC $40, X    ");
}

#[test]
fn run_frame_stops_at_each_frame() {
    // JMP $8000
    let program = [0x4c, 0x00, 0x80];
    let mut cpu = Cpu::new(DuNesBus::new(cartridge(&program)));
    assert!(cpu.run_frame());
    assert!(!cpu.bus.ppu.is_frame_ready);
    let first = cpu.cycles;
    assert!(cpu.run_frame());
    assert!(!cpu.bus.ppu.is_frame_ready);
    // A frame is 341 * 262 dots, three dots per processor cycle.
    let frame = cpu.cycles - first;
    assert!((29770..=29790).contains(&frame), "{frame}");
    assert!((0x8000..=0x8002).contains(&cpu.pc));
}

#[test]
fn bus_starts_with_the_ppu_at_power_on() {
    let bus = DuNesBus::new(cartridge(&[]));
    assert_eq!(bus.ppu.control.0, 0);
    assert_eq!(bus.ppu.status.0, 0);
    assert_eq!(bus.ppu.mask.0, 0);
    assert!(!bus.ppu.nmi);
    assert!(!bus.ppu.is_frame_ready);
    assert_eq!((bus.ppu.cycle, bus.ppu.scanline), (0, 0));
    assert!(bus.ram.iter().all(|&b| b == 0));
}
