//! The emulator: the processor on a bus with its RAM, an NROM board and the
//! registers of the audio unit, and a scheduler whose clock counts bus
//! accesses.
//!
//! The audio unit itself runs outside the emulator: the bus keeps the status
//! byte that it last reported, and queues the register writes and bus
//! cycles for it.
use vstd::prelude::*;

use crate::bus::{Bus, Pins};
use crate::cpu::semantics::{interrupt_spec, Interrupt};
use crate::cpu::status::Status;
use crate::cpu::step::pending_interrupt;
use crate::cpu::trace::{accessed, Cycle, Latches, Regs, Variant};
use crate::cpu::Cpu;
use crate::cartridge::window_byte;
use crate::nrom::{self, Nrom};
use crate::scheduler::{sentinel, sorted, Event, EventKind, Scheduler};

verus! {

/// The size of the processor's internal RAM in bytes.
pub const RAM_SIZE: u16 = 0x0800;

/// The traffic between the bus and the audio unit.
pub struct ApuPort {
    /// The byte that a read of the status register (0x4015) returns.
    pub status: u8,
    /// Register writes (address, data) not yet delivered to the audio unit.
    pub writes: Vec<(u16, u8)>,
    /// Bus cycles not yet delivered to the audio unit.
    pub cycles: u64,
}

/// The bus of the emulator.
pub struct EmuBus {
    /// The processor's internal RAM.
    pub ram: Vec<u8>,
    /// The last address on the bus.
    pub addr: u16,
    /// The last data on the bus.
    pub data: u8,
    /// The cartridge board.
    pub nrom: Nrom,
    /// The audio unit's registers.
    pub apu: ApuPort,
}

/// `n` is `c` plus one, stopping at the largest `u64`.
pub open spec fn counted(c: u64, n: u64) -> bool {
    n == if c < u64::MAX { (c + 1) as u64 } else { c }
}

impl EmuBus {
    /// A bus access to `addr` is defined: RAM is its full size, the
    /// cartridge answers PRG RAM and PRG ROM accesses, and nothing is
    /// mapped at 0x4020-0x5FFF.
    pub open spec fn can_access(&self, addr: u16) -> bool {
        &&& addr <= 0x1fff ==> self.ram@.len() == RAM_SIZE
        &&& !(0x4020 <= addr <= 0x5fff)
        &&& 0x6000 <= addr <= 0x7fff ==> addr - 0x6000 < self.nrom.prg_ram@.len()
        &&& 0x8000 <= addr ==> self.nrom.prg_rom@.len() > 0
    }

    /// The byte that a read of `addr` returns where the read is defined.
    pub open spec fn read_value(&self, addr: u16) -> u8 {
        if addr <= 0x1fff {
            self.ram@[addr as int % 0x800]
        } else if addr == 0x4015 {
            self.apu.status
        } else if addr <= 0x5fff {
            0
        } else if addr <= 0x7fff {
            self.nrom.prg_ram@[addr - 0x6000]
        } else {
            window_byte(self.nrom.prg_rom@, addr - 0x8000)
        }
    }

    /// Reads the byte at `addr` from the memory map.
    fn read_map(&self, addr: u16) -> (data: u8)
        ensures
            self.can_access(addr) ==> data == self.read_value(addr),
            !self.can_access(addr) ==> data == 0,
    {
        if addr <= 0x1fff {
            if self.ram.len() == RAM_SIZE as usize {
                // 0x0800-0x1FFF are mirrors of 0x0000-0x07FF.
                self.ram[(addr % 0x800) as usize]
            } else {
                0
            }
        } else if addr == 0x4015 {
            self.apu.status
        } else if addr <= 0x5fff {
            0
        } else if addr <= 0x7fff {
            if ((addr - 0x6000) as usize) < self.nrom.prg_ram.len() {
                nrom::read_prg_ram(&self.nrom, addr)
            } else {
                0
            }
        } else if self.nrom.prg_rom.len() > 0 {
            nrom::read_prg_rom(&self.nrom, addr)
        } else {
            0
        }
    }

    /// The byte that a read of `addr` would return, for the addresses that
    /// hold memory: RAM, PRG RAM and PRG ROM.
    pub open spec fn peek_value(&self, addr: u16) -> Option<u8> {
        if addr <= 0x1fff || 0x6000 <= addr {
            Some(self.read_value(addr))
        } else {
            None
        }
    }
}

impl Bus for EmuBus {
    /// A read as [`Bus::read`] performs it here: the data at the address, or
    /// 0 where nothing answers, with one cycle counted for the audio unit.
    open spec fn read_rel(&self, pins: Pins, next: Self, out: Pins) -> bool {
        &&& self.can_access(pins.address) ==> out.data == self.read_value(pins.address)
        &&& !self.can_access(pins.address) ==> out.data == 0
        &&& out == (Pins { data: out.data, ..pins })
        &&& counted(self.apu.cycles, next.apu.cycles)
        &&& next == (EmuBus {
            addr: pins.address,
            data: out.data,
            apu: ApuPort { cycles: next.apu.cycles, ..self.apu },
            ..*self
        })
    }

    /// A write as [`Bus::write`] performs it here: RAM and PRG RAM take the
    /// byte, the audio registers queue it, PRG ROM stores it, and one cycle
    /// is counted for the audio unit.
    open spec fn write_rel(&self, pins: Pins, next: Self, out: Pins) -> bool {
        let a = pins.address;
        let d = pins.data;
        let o = *self;
        let f = next;
        &&& out == pins
        &&& counted(o.apu.cycles, f.apu.cycles)
        &&& f.addr == a
        &&& f.data == d
        &&& f.apu.status == o.apu.status
        &&& f.apu.writes@ == if 0x4000 <= a <= 0x4017 {
            o.apu.writes@.push((a, d))
        } else {
            o.apu.writes@
        }
        &&& f.ram@ == if a <= 0x1fff && o.ram@.len() == RAM_SIZE {
            o.ram@.update(a as int % 0x800, d)
        } else {
            o.ram@
        }
        &&& f.nrom.prg_ram@ == if 0x6000 <= a <= 0x7fff && a - 0x6000 < o.nrom.prg_ram@.len() {
            o.nrom.prg_ram@.update(a - 0x6000, d)
        } else {
            o.nrom.prg_ram@
        }
        &&& f.nrom.prg_rom@ == if 0x8000 <= a && o.nrom.prg_rom@.len() > 0 {
            o.nrom.prg_rom@.update((a - 0x8000) % (o.nrom.prg_rom@.len() as int), d)
        } else {
            o.nrom.prg_rom@
        }
    }

    /// Reads `pins.address`, counting one cycle for the audio unit. A read
    /// of an address that nothing answers returns 0.
    fn read(&mut self, pins: &mut Pins) {
        if self.apu.cycles < u64::MAX {
            self.apu.cycles = self.apu.cycles + 1;
        }
        let addr = pins.address;
        let data = self.read_map(addr);
        self.addr = addr;
        self.data = data;
        pins.data = data;
    }

    /// Writes `pins.data` to `pins.address`, counting one cycle for the
    /// audio unit: RAM and PRG RAM take the byte, the audio registers queue
    /// it for the audio unit, PRG ROM stores it, and the other addresses
    /// ignore it.
    fn write(&mut self, pins: &mut Pins) {
        if self.apu.cycles < u64::MAX {
            self.apu.cycles = self.apu.cycles + 1;
        }
        let addr = pins.address;
        let data = pins.data;
        self.addr = addr;
        self.data = data;
        if addr <= 0x1fff {
            if self.ram.len() == RAM_SIZE as usize {
                // 0x0800-0x1FFF are mirrors of 0x0000-0x07FF.
                self.ram.set((addr % 0x800) as usize, data);
            }
        } else if 0x4000 <= addr && addr <= 0x4017 {
            self.apu.writes.push((addr, data));
        } else if 0x6000 <= addr && addr <= 0x7fff {
            if ((addr - 0x6000) as usize) < self.nrom.prg_ram.len() {
                nrom::write_prg_ram(&mut self.nrom, addr, data);
            }
        } else if 0x8000 <= addr {
            if self.nrom.prg_rom.len() > 0 {
                nrom::write_prg_rom(&mut self.nrom, addr, data);
            }
        }
    }
}

/// ANE, LXA and the JAM opcodes, which this emulator leaves
/// unimplemented.
pub open spec fn unimplemented_opcode(o: u8) -> bool {
    ||| o == 0x8b
    ||| o == 0xab
    ||| o == 0x02 || o == 0x12 || o == 0x22 || o == 0x32 || o == 0x42 || o == 0x52
    ||| o == 0x62 || o == 0x72 || o == 0x92 || o == 0xb2 || o == 0xd2 || o == 0xf2
}

/// The `j`th event of the queue `e` falls due while the due events are
/// handled from cycle `c` on: it and every event before it is due by the
/// time the resets before it have run, six cycles each.
pub open spec fn falls_due(e: Seq<Event>, c: int, j: int) -> bool {
    forall|i: int| 0 <= i <= j ==> #[trigger] e[i].tick <= c + 6 * i
}

/// The registers after `k` reset sequences from `r`, whose cycles are read
/// from `t` starting at `b`.
pub open spec fn after_resets(r: Regs, t: Seq<Cycle>, b: int, k: nat) -> Regs
    decreases k,
{
    if k == 0 {
        r
    } else {
        interrupt_spec(Interrupt::Rst, after_resets(r, t, b, (k - 1) as nat), t, b + 6 * (k - 1)).regs
    }
}

/// Each of the `k` reset sequences from `r` read its cycles from `t` in the
/// right shape.
pub open spec fn resets_ok(r: Regs, t: Seq<Cycle>, b: int, k: nat) -> bool {
    forall|j: nat|
        j < k ==> (#[trigger] interrupt_spec(
            Interrupt::Rst,
            after_resets(r, t, b, j),
            t,
            b + 6 * j,
        )).ok
}

/// The reset sequences only read their own cycles.
proof fn lemma_resets_agree(r: Regs, t: Seq<Cycle>, u: Seq<Cycle>, b: int, k: nat)
    requires
        0 <= b,
        b + 6 * k <= t.len(),
        b + 6 * k <= u.len(),
        forall|i: int| b <= i < b + 6 * k ==> t[i] == u[i],
    ensures
        after_resets(r, t, b, k) == after_resets(r, u, b, k),
        resets_ok(r, t, b, k) == resets_ok(r, u, b, k),
    decreases k,
{
    if k > 0 {
        lemma_resets_agree(r, t, u, b, (k - 1) as nat);
        let r0 = after_resets(r, t, b, (k - 1) as nat);
        let c = b + 6 * (k - 1);
        assert(t[c] == u[c] && t[c + 1] == u[c + 1] && t[c + 2] == u[c + 2] && t[c + 3] == u[c + 3]
            && t[c + 4] == u[c + 4] && t[c + 5] == u[c + 5]);
        assert(interrupt_spec(Interrupt::Rst, r0, t, c) == interrupt_spec(Interrupt::Rst, r0, u, c));
        assert forall|j: nat| j < k implies #[trigger] interrupt_spec(
            Interrupt::Rst,
            after_resets(r, t, b, j),
            t,
            b + 6 * j,
        ).ok == interrupt_spec(Interrupt::Rst, after_resets(r, u, b, j), u, b + 6 * j).ok by {
            if j < k - 1 {
                lemma_resets_agree(r, t, u, b, j);
                let cj = b + 6 * j;
                let rj = after_resets(r, t, b, j);
                assert(t[cj] == u[cj] && t[cj + 1] == u[cj + 1] && t[cj + 2] == u[cj + 2] && t[cj
                    + 3] == u[cj + 3] && t[cj + 4] == u[cj + 4] && t[cj + 5] == u[cj + 5]);
                assert(interrupt_spec(Interrupt::Rst, rj, t, cj) == interrupt_spec(
                    Interrupt::Rst,
                    rj,
                    u,
                    cj,
                ));
            }
        }
    }
}

/// The emulator.
pub struct Emu {
    /// The processor and its bus.
    pub cpu: Cpu<EmuBus>,
    /// The scheduler; its clock is the processor's count of bus accesses.
    pub scheduler: Scheduler,
}

impl Emu {
    /// The scheduler's queue is sorted and ends with the sentinel, and the
    /// processor is well formed and runs the emulator's instruction set.
    pub open spec fn wf(&self) -> bool {
        &&& self.scheduler.wf()
        &&& self.cpu.wf()
        &&& self.cpu.variant == Variant::Emulator
    }

    /// Every event that falls due while the due events are handled is a
    /// reset.
    #[verifier::opaque]
    pub open spec fn due_are_resets(&self) -> bool {
        let e = self.scheduler.events@;
        forall|j: int|
            0 <= j < e.len() && #[trigger] falls_due(e, self.cpu.cycles as int, j)
                ==> e[j].kind == EventKind::Reset
    }

    /// The processor's cycle counter leaves room for the resets still queued
    /// and one more step.
    pub open spec fn room(&self) -> bool {
        self.cpu.cycles + 6 * self.scheduler.events@.len() + 8 < u64::MAX
    }

    /// `f` is `self` after the events due are handled: the first `k` events
    /// were due, one after the other, and ran their reset sequences; the
    /// next event is not due.
    pub open spec fn handled(&self, f: Emu, k: nat) -> bool {
        let e = self.scheduler.events@;
        let b = self.cpu.trace().len() as int;
        &&& k < e.len()
        &&& f.scheduler.events@ == e.subrange(k as int, e.len() as int)
        &&& forall|j: int| 0 <= j < k ==> (#[trigger] e[j]).tick <= self.cpu.cycles + 6 * j
        &&& f.scheduler.events@[0].tick > f.cpu.cycles
        &&& f.cpu.after(self.cpu, 6 * k as int)
        &&& resets_ok(self.cpu.regs(), f.cpu.trace(), b, k)
        &&& f.cpu.regs() == after_resets(self.cpu.regs(), f.cpu.trace(), b, k)
        &&& f.scheduler.ticks == f.cpu.cycles
    }

    /// Builds the emulator for the iNES image `rom`, with a reset due at
    /// once.
    pub fn new(rom: &[u8]) -> (emu: Emu)
        requires
            rom@.len() >= 16,
            rom@[4] * nrom::PRG_ROM_BANK_SIZE <= u16::MAX,
            16 + crate::cartridge::prg_rom_size(rom@) <= rom@.len(),
        ensures
            emu.wf(),
            emu.cpu.regs() == (Regs {
                a: 0,
                x: 0,
                y: 0,
                pc: 0,
                s: 0xfd,
                p: 0x34,
                variant: Variant::Emulator,
            }),
            emu.cpu.latches() == (Latches {
                prev_irq: false,
                irq: false,
                prev_nmi: false,
                prev_need_nmi: false,
                need_nmi: false,
                rst: false,
            }),
            emu.cpu.trace().len() == 0,
            emu.cpu.cycles == 0,
            emu.cpu.bus.ram@ == Seq::new(RAM_SIZE as nat, |i: int| 0u8),
            emu.cpu.bus.nrom.prg_ram@ == Seq::new(nrom::PRG_RAM_SIZE as nat, |i: int| 0u8),
            emu.cpu.bus.nrom.prg_rom@ == crate::cartridge::image_prg_rom(rom@),
            emu.cpu.bus.addr == 0,
            emu.cpu.bus.data == 0,
            emu.cpu.bus.apu.status == 0,
            emu.cpu.bus.apu.writes@.len() == 0,
            emu.cpu.bus.apu.cycles == 0,
            emu.scheduler.events@ == seq![Event { kind: EventKind::Reset, tick: 0 }, sentinel()],
            emu.scheduler.ticks == 0,
    {
        let ram: Vec<u8> = vec![0; RAM_SIZE as usize];
        assert(ram@ =~= Seq::new(RAM_SIZE as nat, |i: int| 0u8));
        let bus = EmuBus {
            ram,
            addr: 0,
            data: 0,
            nrom: Nrom::new(rom),
            apu: ApuPort { status: 0, writes: Vec::new(), cycles: 0 },
        };
        let mut cpu = Cpu::new(bus);
        cpu.p = Status(0x34);
        cpu.variant = Variant::Emulator;
        cpu.cancel_reset();
        let mut scheduler = Scheduler::new();
        scheduler.queue(EventKind::Reset, 0);
        proof {
            let s = seq![sentinel()];
            assert(crate::scheduler::place(s, 0, 0));
            assert(s.insert(0, Event { kind: EventKind::Reset, tick: 0 }) =~= seq![
                Event { kind: EventKind::Reset, tick: 0 },
                sentinel(),
            ]);
        }
        Emu { cpu, scheduler }
    }

    /// Handles the events that are due, in order: each is a reset of the
    /// processor, during which the clock runs on and more events may fall
    /// due.
    pub fn handle_events(&mut self)
        requires
            old(self).wf(),
            old(self).room(),
            old(self).due_are_resets(),
        ensures
            final(self).wf(),
            exists|k: nat| old(self).handled(*final(self), k),
    {
        let ghost o = *self;
        let ghost e = self.scheduler.events@;
        let ghost b = self.cpu.trace().len() as int;
        let ghost mut k: nat = 0;
        self.scheduler.ticks = self.cpu.cycles;
        while self.scheduler.events[0].tick <= self.scheduler.ticks
            invariant
                self.wf(),
                k < e.len(),
                self.scheduler.events@ == e.subrange(k as int, e.len() as int),
                forall|j: int| 0 <= j < k ==> (#[trigger] e[j]).tick <= o.cpu.cycles + 6 * j,
                self.cpu.after(o.cpu, 6 * k as int),
                resets_ok(o.cpu.regs(), self.cpu.trace(), b, k),
                self.cpu.regs() == after_resets(o.cpu.regs(), self.cpu.trace(), b, k),
                self.scheduler.ticks == self.cpu.cycles,
                self.cpu.cycles == o.cpu.cycles + 6 * k,
                o.cpu.cycles + 6 * e.len() + 8 < u64::MAX,
                b == o.cpu.trace().len(),
                e == o.scheduler.events@,
                o.due_are_resets(),
            decreases e.len() - k,
        {
            let kind = self.scheduler.events[0].kind;
            if self.scheduler.events.len() == 1 {
                // Only the sentinel is left, and it is due at the end of
                // time, which the clock cannot reach.
                assert(false);
            }
            assert(e[k as int].kind == EventKind::Reset) by {
                assert(falls_due(e, o.cpu.cycles as int, k as int));
                reveal(Emu::due_are_resets);
            }
            match kind {
                EventKind::Reset => {
                    let ghost before = self.cpu;
                    self.cpu.interrupt(Interrupt::Rst);
                    proof {
                        let t = self.cpu.trace();
                        lemma_resets_agree(o.cpu.regs(), before.trace(), t, b, k);
                        assert(after_resets(o.cpu.regs(), t, b, k + 1) == interrupt_spec(
                            Interrupt::Rst,
                            after_resets(o.cpu.regs(), t, b, k),
                            t,
                            b + 6 * k,
                        ).regs);
                        assert forall|j: nat| j < k + 1 implies (#[trigger] interrupt_spec(
                            Interrupt::Rst,
                            after_resets(o.cpu.regs(), t, b, j),
                            t,
                            b + 6 * j,
                        )).ok by {
                            if j < k {
                                assert(interrupt_spec(
                                    Interrupt::Rst,
                                    after_resets(o.cpu.regs(), before.trace(), b, j),
                                    before.trace(),
                                    b + 6 * j,
                                ).ok);
                                lemma_resets_agree(o.cpu.regs(), before.trace(), t, b, j + 1);
                            }
                        }
                    }
                },
                EventKind::Unreachable => {
                    assert(false);
                },
            }
            self.scheduler.events.remove(0);
            proof {
                assert(self.scheduler.events@ =~= e.subrange(k + 1 as int, e.len() as int));
                k = k + 1;
            }
            self.scheduler.ticks = self.cpu.cycles;
        }
        assert(o.handled(*self, k));
    }

    /// The processor's next step fetches, from memory, an opcode that this
    /// emulator leaves unimplemented: ANE, LXA or one of the JAM opcodes.
    pub open spec fn fetches_unimplemented(&self) -> bool {
        &&& pending_interrupt(self.cpu.latches()) is None
        &&& self.cpu.bus.can_access(self.cpu.pc)
        &&& unimplemented_opcode(self.cpu.bus.read_value(self.cpu.pc))
    }

    /// Handles the events that are due and runs one processor step. The
    /// step must not fetch an opcode that this emulator leaves
    /// unimplemented.
    pub fn step(&mut self)
        requires
            old(self).wf(),
            old(self).room(),
            old(self).due_are_resets(),
            forall|mid: Emu, k: nat|
                #[trigger] old(self).handled(mid, k) ==> !mid.fetches_unimplemented(),
        ensures
            final(self).wf(),
            exists|mid: Emu, k: nat|
                #![trigger old(self).handled(mid, k)]
                old(self).handled(mid, k) && final(self).cpu.stepped(mid.cpu)
                    && final(self).scheduler.events == mid.scheduler.events
                    && final(self).scheduler.ticks == final(self).cpu.cycles,
    {
        self.handle_events();
        let ghost mid = *self;
        self.cpu.step();
        self.scheduler.ticks = self.cpu.cycles;
        proof {
            let k = choose|k: nat| old(self).handled(mid, k);
            assert(old(self).handled(mid, k));
        }
    }

    /// The byte at `addr` if it holds memory (RAM, PRG RAM or PRG ROM), read
    /// without a bus cycle.
    pub fn peek(&mut self, addr: u16) -> (r: Option<u8>)
        requires
            old(self).cpu.bus.can_access(addr) || (0x2000 <= addr <= 0x5fff),
        ensures
            r == old(self).cpu.bus.peek_value(addr),
            *final(self) == *old(self),
    {
        if addr <= 0x1fff || 0x6000 <= addr {
            Some(self.cpu.bus.read_map(addr))
        } else {
            None
        }
    }
}

} // verus!
