use dunes::bus::{Bus, Pins, RamBus};
use dunes::cpu::trace::Variant;
use dunes::cpu::Cpu;

/// A processor whose reset vector points at `program`, loaded at 0x8000,
/// after its reset step.
fn boot(program: &[u8]) -> Cpu<RamBus> {
    let mut mem = vec![0u8; 0x10000];
    mem[0x8000..0x8000 + program.len()].copy_from_slice(program);
    mem[0xfffc] = 0x00;
    mem[0xfffd] = 0x80;
    let mut cpu = Cpu::new(RamBus { memory: mem });
    cpu.step();
    cpu
}

#[test]
fn reset_loads_the_vector() {
    let cpu = boot(&[]);
    assert_eq!(cpu.pc, 0x8000);
    assert_eq!(cpu.s, 0xfa);
    assert_eq!(cpu.p.0 & 0x04, 0x04);
    assert_eq!(cpu.cycles, 7);
}

#[test]
fn lda_immediate_sets_zero_and_negative() {
    let mut cpu = boot(&[0xa9, 0x00, 0xa9, 0x80, 0xa9, 0x42]);
    cpu.step();
    assert_eq!(cpu.a, 0x00);
    assert_eq!(cpu.p.0 & 0x82, 0x02);
    cpu.step();
    assert_eq!(cpu.a, 0x80);
    assert_eq!(cpu.p.0 & 0x82, 0x80);
    cpu.step();
    assert_eq!(cpu.a, 0x42);
    assert_eq!(cpu.p.0 & 0x82, 0x00);
    assert_eq!(cpu.pc, 0x8006);
    assert_eq!(cpu.cycles, 7 + 6);
}

#[test]
fn adc_signed_overflow() {
    // CLC; LDA #$50; ADC #$50
    let mut cpu = boot(&[0x18, 0xa9, 0x50, 0x69, 0x50]);
    cpu.step();
    cpu.step();
    cpu.step();
    assert_eq!(cpu.a, 0xa0);
    // V and N set, C and Z clear.
    assert_eq!(cpu.p.0 & 0xc3, 0xc0);
}

#[test]
fn adc_unsigned_carry() {
    // SEC; LDA #$ff; ADC #$01
    let mut cpu = boot(&[0x38, 0xa9, 0xff, 0x69, 0x01]);
    cpu.step();
    cpu.step();
    cpu.step();
    assert_eq!(cpu.a, 0x01);
    // C set, V, Z and N clear.
    assert_eq!(cpu.p.0 & 0xc3, 0x01);
}

#[test]
fn sbc_borrows() {
    // SEC; LDA #$50; SBC #$f0
    let mut cpu = boot(&[0x38, 0xa9, 0x50, 0xe9, 0xf0]);
    cpu.step();
    cpu.step();
    cpu.step();
    assert_eq!(cpu.a, 0x60);
    // C clear (a borrow), V clear.
    assert_eq!(cpu.p.0 & 0xc3, 0x00);
}

#[test]
fn compare_equal_and_less() {
    // LDA #$10; CMP #$10; CMP #$20
    let mut cpu = boot(&[0xa9, 0x10, 0xc9, 0x10, 0xc9, 0x20]);
    cpu.step();
    cpu.step();
    assert_eq!(cpu.p.0 & 0x83, 0x03);
    cpu.step();
    assert_eq!(cpu.p.0 & 0x83, 0x80);
}

#[test]
fn store_and_load_through_memory() {
    // LDX #$07; STX $0200; LDY $0200
    let mut cpu = boot(&[0xa2, 0x07, 0x8e, 0x00, 0x02, 0xac, 0x00, 0x02]);
    cpu.step();
    cpu.step();
    assert_eq!(cpu.bus.memory[0x0200], 0x07);
    cpu.step();
    assert_eq!(cpu.y, 0x07);
    assert_eq!(cpu.cycles, 7 + 2 + 4 + 4);
}

#[test]
fn jsr_and_rts_return_after_the_call() {
    // JSR $8010; ... at $8010: RTS
    let mut program = vec![0x20, 0x10, 0x80];
    program.resize(0x10, 0xea);
    program.push(0x60);
    let mut cpu = boot(&program);
    cpu.step();
    assert_eq!(cpu.pc, 0x8010);
    assert_eq!(cpu.s, 0xf8);
    assert_eq!(cpu.bus.memory[0x01fa], 0x80);
    assert_eq!(cpu.bus.memory[0x01f9], 0x02);
    cpu.step();
    assert_eq!(cpu.pc, 0x8003);
    assert_eq!(cpu.s, 0xfa);
    assert_eq!(cpu.cycles, 7 + 6 + 6);
}

#[test]
fn push_then_pull_restores_the_byte() {
    // LDA #$33; PHA; LDA #$00; PLA
    let mut cpu = boot(&[0xa9, 0x33, 0x48, 0xa9, 0x00, 0x68]);
    for _ in 0..4 {
        cpu.step();
    }
    assert_eq!(cpu.a, 0x33);
    assert_eq!(cpu.s, 0xfa);
}

#[test]
fn branch_taken_across_a_page() {
    // At $80fd: BNE +2 (Z clear after reset) lands on $8101.
    let mut program = vec![0xea; 0xfd];
    program.push(0xd0);
    program.push(0x02);
    let mut cpu = boot(&program);
    cpu.pc = 0x80fd;
    let before = cpu.cycles;
    cpu.step();
    assert_eq!(cpu.pc, 0x8101);
    assert_eq!(cpu.cycles - before, 4);
}

#[test]
fn branch_not_taken() {
    // LDA #$00 sets Z; BNE is not taken.
    let mut cpu = boot(&[0xa9, 0x00, 0xd0, 0x10]);
    cpu.step();
    let before = cpu.cycles;
    cpu.step();
    assert_eq!(cpu.pc, 0x8004);
    assert_eq!(cpu.cycles - before, 2);
}

#[test]
fn indirect_jump_wraps_within_the_page() {
    // JMP ($02ff) reads its high byte from $0200.
    let mut cpu = boot(&[0x6c, 0xff, 0x02]);
    cpu.bus.memory[0x02ff] = 0x34;
    cpu.bus.memory[0x0200] = 0x12;
    cpu.bus.memory[0x0300] = 0x99;
    cpu.step();
    assert_eq!(cpu.pc, 0x1234);
}

#[test]
fn brk_pushes_status_with_break_set() {
    let mut cpu = boot(&[0x00]);
    cpu.bus.memory[0xfffe] = 0x00;
    cpu.bus.memory[0xffff] = 0x90;
    cpu.step();
    assert_eq!(cpu.pc, 0x9000);
    assert_eq!(cpu.bus.memory[0x01fa], 0x80);
    assert_eq!(cpu.bus.memory[0x01f9], 0x02);
    assert_eq!(cpu.bus.memory[0x01f8] & 0x10, 0x10);
}

#[test]
fn nmi_is_taken_after_an_edge() {
    let mut cpu = boot(&[0xea, 0xea, 0xea]);
    cpu.bus.memory[0xfffa] = 0x00;
    cpu.bus.memory[0xfffb] = 0xa0;
    cpu.pins.nmi = true;
    cpu.step();
    assert_eq!(cpu.pc, 0x8001);
    cpu.step();
    assert_eq!(cpu.pc, 0xa000);
    // The pushed status has the break flag clear.
    assert_eq!(cpu.bus.memory[0x01f8] & 0x10, 0x00);
    assert_eq!(cpu.bus.memory[0x01fa], 0x80);
    assert_eq!(cpu.bus.memory[0x01f9], 0x01);
}

#[test]
fn inc_memory_wraps() {
    // INC $10 twice from $fe.
    let mut cpu = boot(&[0xe6, 0x10, 0xe6, 0x10]);
    cpu.bus.memory[0x10] = 0xfe;
    cpu.step();
    assert_eq!(cpu.bus.memory[0x10], 0xff);
    cpu.step();
    assert_eq!(cpu.bus.memory[0x10], 0x00);
    assert_eq!(cpu.p.0 & 0x02, 0x02);
}

#[test]
fn transfers_and_stack_pointer() {
    // LDX #$40; TXS; TSX; TXA
    let mut cpu = boot(&[0xa2, 0x40, 0x9a, 0xba, 0x8a]);
    for _ in 0..4 {
        cpu.step();
    }
    assert_eq!(cpu.s, 0x40);
    assert_eq!(cpu.a, 0x40);
}

#[test]
fn flat_memory_reads_and_writes() {
    let mut bus = RamBus { memory: vec![7, 8] };
    let mut pins = Pins { address: 1, data: 0, irq: false, nmi: false, rst: false };
    bus.read(&mut pins);
    assert_eq!(pins.data, 8);
    pins.address = 5;
    bus.read(&mut pins);
    assert_eq!(pins.data, 0);
    pins.address = 0;
    pins.data = 9;
    bus.write(&mut pins);
    assert_eq!(bus.memory, vec![9, 8]);
    pins.address = 5;
    bus.write(&mut pins);
    assert_eq!(bus.memory, vec![9, 8]);
}

#[test]
fn nmi_is_taken_once_per_edge() {
    let mut cpu = boot(&[0xea, 0xea, 0xea]);
    cpu.bus.memory[0xfffa] = 0x00;
    cpu.bus.memory[0xfffb] = 0xa0;
    cpu.bus.memory[0xa000] = 0xea;
    cpu.bus.memory[0xa001] = 0xea;
    cpu.bus.memory[0xa002] = 0xea;
    cpu.pins.nmi = true;
    cpu.step();
    cpu.step();
    assert_eq!(cpu.pc, 0xa000);
    // The line stays high: no second NMI.
    cpu.step();
    assert_eq!(cpu.pc, 0xa001);
    cpu.step();
    cpu.step();
    assert_eq!(cpu.pc, 0xa003);
    assert_eq!(cpu.s, 0xf7);
}

#[test]
fn php_then_plp_restores_the_status() {
    // SEC; PHP; CLC; PLP
    let mut cpu = boot(&[0x38, 0x08, 0x18, 0x28]);
    cpu.step();
    let p = cpu.p.0;
    cpu.step();
    assert_eq!(cpu.bus.memory[0x01fa], p | 0x30);
    cpu.step();
    assert_eq!(cpu.p.0 & 0x01, 0);
    cpu.step();
    assert_eq!(cpu.p.0, p);
    assert_eq!(cpu.s, 0xfa);
    assert_eq!(cpu.pc, 0x8004);
}

#[test]
fn debugger_unstable_store() {
    // LDA #$FF; LDX #$FF; LDY #$01; SHA $12FF,Y (0x93); SHA $1200,Y (0x93)
    let mut cpu = boot(&[0xa9, 0xff, 0xa2, 0xff, 0xa0, 0x01, 0x93, 0xff, 0x12, 0x93, 0x00, 0x12]);
    for _ in 0..5 {
        cpu.step();
    }
    assert_eq!(cpu.bus.memory[0x1400], 0x14);
    assert_eq!(cpu.bus.memory[0x1301], 0x13);
}

#[test]
fn emulator_unstable_store() {
    // LDA #$FF; LDX #$FF; LDY #$01; SHA $12FF,Y (0x9F); SHA $1200,Y (0x9F)
    let mut cpu = boot(&[0xa9, 0xff, 0xa2, 0xff, 0xa0, 0x01, 0x9f, 0xff, 0x12, 0x9f, 0x00, 0x12]);
    cpu.variant = Variant::Emulator;
    for _ in 0..5 {
        cpu.step();
    }
    // Across the page the high byte becomes the data, without the increment.
    assert_eq!(cpu.bus.memory[0x1300], 0x13);
    // Within the page the address is the effective one.
    assert_eq!(cpu.bus.memory[0x1201], 0x13);
    assert_eq!(cpu.bus.memory[0x1400], 0x00);
    assert_eq!(cpu.bus.memory[0x1301], 0x00);
}

#[test]
fn nmi_pushes_the_status_as_held() {
    let mut cpu = boot(&[0xea, 0xea, 0xea]);
    cpu.bus.memory[0xfffa] = 0x00;
    cpu.bus.memory[0xfffb] = 0xa0;
    // The break flag set in the register is pushed as it is.
    cpu.p.0 |= 0x10;
    let p = cpu.p.0;
    cpu.pins.nmi = true;
    cpu.step();
    cpu.step();
    assert_eq!(cpu.pc, 0xa000);
    assert_eq!(cpu.bus.memory[0x01f8], p);
}

#[test]
fn sbc_equals_adc_of_the_complement() {
    for (a, m, carry) in [(0x50u8, 0x30u8, true), (0x10, 0x20, false), (0x80, 0x01, true)] {
        let mut sbc = boot(&[0xe9, m]);
        let mut adc = boot(&[0x69, m ^ 0xff]);
        for cpu in [&mut sbc, &mut adc] {
            cpu.a = a;
            cpu.p.0 = if carry { cpu.p.0 | 1 } else { cpu.p.0 & !1 };
            cpu.step();
        }
        assert_eq!(sbc.a, adc.a);
        assert_eq!(sbc.p.0, adc.p.0);
        assert_eq!(sbc.pc, adc.pc);
        assert_eq!(sbc.cycles, adc.cycles);
        let borrow = if carry { 0 } else { 1 };
        assert_eq!(sbc.a, a.wrapping_sub(m).wrapping_sub(borrow));
    }
}
