use dunes::emu::Emu;
use dunes::scheduler::{Event, EventKind};

/// An iNES image with one PRG bank that holds `program` at 0x8000 and a
/// reset vector pointing at it.
fn image(program: &[u8]) -> Vec<u8> {
    let mut rom = vec![0x4e, 0x45, 0x53, 0x1a, 1, 0, 0, 0, 0, 0, 0, 0, 0, 0, 0, 0];
    let mut prg = vec![0xea; 0x4000];
    prg[..program.len()].copy_from_slice(program);
    prg[0x3ffc] = 0x00;
    prg[0x3ffd] = 0x80;
    rom.extend_from_slice(&prg);
    rom
}

#[test]
fn emu_new_queues_a_reset() {
    let emu = Emu::new(&image(&[]));
    assert_eq!(emu.scheduler.events.len(), 2);
    assert_eq!(emu.scheduler.events[0], Event { kind: EventKind::Reset, tick: 0 });
    assert_eq!(emu.cpu.s, 0xfd);
    assert_eq!(emu.cpu.p.0, 0x34);
    assert!(!emu.cpu.rst);
    assert_eq!((emu.cpu.bus.addr, emu.cpu.bus.data), (0, 0));
    assert_eq!(emu.cpu.bus.apu.status, 0);
}

#[test]
fn emu_step_resets_then_runs() {
    // LDA #$07; STA $0200; STA $4000
    let mut emu = Emu::new(&image(&[0xa9, 0x07, 0x8d, 0x00, 0x02, 0x8d, 0x00, 0x40]));
    emu.step();
    // The reset took six cycles and LDA two.
    assert_eq!(emu.cpu.cycles, 8);
    assert_eq!(emu.scheduler.ticks, 8);
    assert_eq!(emu.cpu.a, 0x07);
    assert_eq!(emu.cpu.pc, 0x8002);
    assert_eq!(emu.cpu.s, 0xfa);
    assert_eq!(emu.scheduler.events.len(), 1);
    emu.step();
    assert_eq!(emu.peek(0x0200), Some(0x07));
    assert_eq!(emu.peek(0x0a00), Some(0x07));
    emu.step();
    assert_eq!(emu.cpu.bus.apu.writes, vec![(0x4000, 0x07)]);
    assert_eq!(emu.cpu.bus.apu.cycles, emu.cpu.cycles);
}

#[test]
fn emu_peek_memory_only() {
    let mut emu = Emu::new(&image(&[0x12, 0x34]));
    assert_eq!(emu.peek(0x8001), Some(0x34));
    assert_eq!(emu.peek(0xc000), Some(0x12));
    assert_eq!(emu.peek(0x2002), None);
    assert_eq!(emu.peek(0x6000), Some(0));
}

#[test]
fn emu_reads_apu_status() {
    // LDA $4015
    let mut emu = Emu::new(&image(&[0xad, 0x15, 0x40]));
    emu.cpu.bus.apu.status = 0x5a;
    emu.step();
    assert_eq!(emu.cpu.a, 0x5a);
}

#[test]
fn emu_queued_reset_runs_later() {
    let mut emu = Emu::new(&image(&[0xa9, 0x01, 0xa9, 0x02, 0xa9, 0x03]));
    emu.step();
    emu.scheduler.queue(EventKind::Reset, 0);
    emu.step();
    // The second reset sent the processor back to 0x8000 before LDA #$01.
    assert_eq!(emu.cpu.pc, 0x8002);
    assert_eq!(emu.cpu.a, 0x01);
    assert_eq!(emu.cpu.s, 0xf7);
}
