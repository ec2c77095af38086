//! The processor's view of the system bus, and the NES bus that joins the
//! processor to its RAM, the PPU and the cartridge.
use vstd::prelude::*;

use crate::cartridge::NromCartridge;
use crate::ppu::Ppu;

verus! {

/// The processor pins that carry a bus access and the interrupt lines.
#[derive(Clone, Copy)]
pub struct Pins {
    /// The address of the access.
    pub address: u16,
    /// The data read or written.
    pub data: u8,
    /// The interrupt request line.
    pub irq: bool,
    /// The non-maskable interrupt line.
    pub nmi: bool,
    /// The reset line.
    pub rst: bool,
}

impl Default for Pins {
    fn default() -> (r: Pins)
        ensures
            r == (Pins { address: 0, data: 0, irq: false, nmi: false, rst: false }),
    {
        Pins { address: 0, data: 0, irq: false, nmi: false, rst: false }
    }
}

/// A device that answers the processor's bus accesses.
///
/// A read places the data at `pins.address` in `pins.data`; a write stores
/// `pins.data` at `pins.address`. Either may also drive the interrupt lines.
/// Each device states what its accesses do as two relations between the
/// device and pins before an access and after it.
pub trait Bus: Sized {
    /// `next` and `out` are what a read leaves of `self` and `pins`.
    spec fn read_rel(&self, pins: Pins, next: Self, out: Pins) -> bool;

    /// `next` and `out` are what a write leaves of `self` and `pins`.
    spec fn write_rel(&self, pins: Pins, next: Self, out: Pins) -> bool;

    /// Answers a read of `pins.address`.
    fn read(&mut self, pins: &mut Pins)
        ensures
            old(self).read_rel(*old(pins), *final(self), *final(pins)),
    ;

    /// Answers a write of `pins.data` to `pins.address`.
    fn write(&mut self, pins: &mut Pins)
        ensures
            old(self).write_rel(*old(pins), *final(self), *final(pins)),
    ;
}


/// A flat memory that answers every address from its bytes: a read of an
/// address past the end gives 0 and a write there is dropped. It never
/// drives the interrupt lines.
pub struct RamBus {
    /// The bytes, indexed by address.
    pub memory: Vec<u8>,
}

impl RamBus {
    /// The byte a read of `address` gives.
    pub open spec fn byte(&self, address: u16) -> u8 {
        if (address as int) < self.memory@.len() {
            self.memory@[address as int]
        } else {
            0
        }
    }
}

impl Bus for RamBus {
    /// A read gives the byte at the address and changes nothing else.
    open spec fn read_rel(&self, pins: Pins, next: Self, out: Pins) -> bool {
        &&& out == (Pins { data: self.byte(pins.address), ..pins })
        &&& next.memory@ == self.memory@
    }

    /// A write stores the byte at the address and changes nothing else.
    open spec fn write_rel(&self, pins: Pins, next: Self, out: Pins) -> bool {
        &&& out == pins
        &&& next.memory@ == if (pins.address as int) < self.memory@.len() {
            self.memory@.update(pins.address as int, pins.data)
        } else {
            self.memory@
        }
    }

    fn read(&mut self, pins: &mut Pins) {
        let address = pins.address as usize;
        if address < self.memory.len() {
            pins.data = self.memory[address];
        } else {
            pins.data = 0;
        }
    }

    fn write(&mut self, pins: &mut Pins) {
        let address = pins.address as usize;
        if address < self.memory.len() {
            self.memory.set(address, pins.data);
        }
    }
}

/// The size of the processor's internal RAM in bytes.
pub const RAM_SIZE: usize = 0x800;

/// The NES bus: 2 KiB of RAM repeated through 0x0000-0x1FFF, the PPU
/// registers at 0x2000-0x2007, and the cartridge from 0x4020 up. Every
/// access clocks the PPU three dots.
pub struct DuNesBus {
    /// The processor's internal RAM.
    pub ram: Vec<u8>,
    /// The PPU, which holds the cartridge.
    pub ppu: Ppu,
}

/// `f` is the PPU one dot after `o`, or `o` itself where a dot is not
/// defined.
pub open spec fn tick_or_wait(o: Ppu, f: Ppu) -> bool {
    if o.can_tick() {
        o.ticks_to(f)
    } else {
        f == o
    }
}

/// `f` is the PPU three dots after `o`.
pub open spec fn clocked(o: Ppu, f: Ppu) -> bool {
    exists|a: Ppu, b: Ppu|
        #![trigger tick_or_wait(o, a), tick_or_wait(a, b)]
        tick_or_wait(o, a) && tick_or_wait(a, b) && tick_or_wait(b, f)
}

impl DuNesBus {
    /// A read of `address` is defined: RAM is its full size, a PPU register
    /// read is one that the PPU answers, and a cartridge read does not
    /// divide by an empty memory.
    pub open spec fn can_read(&self, address: u16) -> bool {
        &&& address <= 0x1fff ==> self.ram@.len() == RAM_SIZE
        &&& 0x2000 <= address <= 0x2007 ==> self.ppu.can_read_register(address)
        &&& 0x4020 <= address ==> self.ppu.cartridge.can_read_prg(address)
    }

    /// The byte that a read of `address` returns.
    pub open spec fn read_value(&self, address: u16) -> u8 {
        if address <= 0x1fff {
            self.ram@[(address % 0x800) as int]
        } else if address <= 0x2007 {
            self.ppu.register_value(address)
        } else if address <= 0x401f {
            0
        } else {
            self.ppu.cartridge.prg_view(address)
        }
    }

    /// The bus after a read of `address`: only PPU register reads change it.
    pub open spec fn after_read(&self, address: u16) -> DuNesBus {
        if 0x2000 <= address <= 0x2007 {
            DuNesBus { ppu: self.ppu.after_register_read(address), ..*self }
        } else {
            *self
        }
    }

    /// Connects cleared RAM and a PPU at power-on to `cartridge`.
    pub fn new(cartridge: NromCartridge) -> (bus: DuNesBus)
        ensures
            bus.ram@ == Seq::new(RAM_SIZE as nat, |i: int| 0u8),
            bus.ppu.power_on(cartridge),
    {
        let ram: Vec<u8> = vec![0; RAM_SIZE];
        assert(ram@ =~= Seq::new(RAM_SIZE as nat, |i: int| 0u8));
        DuNesBus { ram, ppu: Ppu::new(cartridge) }
    }

    /// Whether a read of `address` is defined.
    pub fn readable(&self, address: u16) -> (r: bool)
        ensures
            r == self.can_read(address),
    {
        if address <= 0x1fff {
            self.ram.len() == RAM_SIZE
        } else if address <= 0x2007 {
            self.ppu.register_readable(address)
        } else if address <= 0x401f {
            true
        } else if address <= 0x7fff {
            address < 0x6000 || self.ppu.cartridge.prg_ram.len() > 0
        } else {
            self.ppu.cartridge.prg_rom.len() > 0
        }
    }

    /// The byte that a read of `address` returns where the read is defined,
    /// and 0 elsewhere.
    pub open spec fn peek_value(&self, address: u16) -> u8 {
        if self.can_read(address) {
            self.read_value(address)
        } else {
            0
        }
    }

    /// The byte that a read of `address` would return, without the read's
    /// side effects; 0 where the read is not defined.
    pub fn peek(&self, address: u16) -> (data: u8)
        ensures
            data == self.peek_value(address),
    {
        if !self.readable(address) {
            0
        } else if address <= 0x1fff {
            self.ram[(address % 0x800) as usize]
        } else if address <= 0x2007 {
            if address == 0x2002 {
                self.ppu.status.0 | (self.ppu.read_buffer & 0x1f)
            } else {
                self.ppu.read_buffer
            }
        } else if address <= 0x401f {
            0
        } else {
            self.ppu.cartridge.read_prg(address)
        }
    }

    /// Reads the byte at `address` without clocking the PPU.
    pub fn read_unclocked(&mut self, address: u16) -> (data: u8)
        requires
            old(self).can_read(address),
        ensures
            data == old(self).read_value(address),
            *final(self) == old(self).after_read(address),
    {
        if address <= 0x1fff {
            self.ram[(address % 0x800) as usize]
        } else if address <= 0x2007 {
            self.ppu.read_register(address)
        } else if address <= 0x401f {
            0
        } else {
            self.ppu.cartridge.read_prg(address)
        }
    }

    /// Clocks the PPU three dots.
    fn clock(&mut self)
        ensures
            clocked(old(self).ppu, final(self).ppu),
            final(self).ram == old(self).ram,
    {
        let ghost p0 = self.ppu;
        if self.ppu.tick_safe() {
            self.ppu.tick();
        }
        let ghost p1 = self.ppu;
        if self.ppu.tick_safe() {
            self.ppu.tick();
        }
        let ghost p2 = self.ppu;
        if self.ppu.tick_safe() {
            self.ppu.tick();
        }
        assert(tick_or_wait(p0, p1) && tick_or_wait(p1, p2) && tick_or_wait(p2, self.ppu));
    }
}

/// RAM repeats every 2 KiB through 0x0000-0x1FFF: a RAM write is read back
/// at every address that repeats it, and no other address changes. `n` is
/// `bus` with the RAM that a write of `data` to `address` leaves, as
/// [`DuNesBus`]'s `write_rel` states it.
pub proof fn lemma_ram_mirrors(bus: DuNesBus, n: DuNesBus, address: u16, data: u8, other: u16)
    requires
        bus.ram@.len() == RAM_SIZE,
        address <= 0x1fff,
        other <= 0x1fff,
        n.ram@ == bus.ram@.update(address as int % 0x800, data),
    ensures
        n.read_value(other) == if other % 0x800 == address % 0x800 {
            data
        } else {
            bus.read_value(other)
        },
{
}

impl Bus for DuNesBus {
    /// A read as [`Bus::read`] performs it here: the data at the address, or
    /// 0 where the bus defines no read, with the PPU clocked three dots.
    open spec fn read_rel(&self, pins: Pins, next: Self, out: Pins) -> bool {
        &&& self.can_read(pins.address) ==> {
            &&& out.data == self.read_value(pins.address)
            &&& clocked(self.after_read(pins.address).ppu, next.ppu)
        }
        &&& !self.can_read(pins.address) ==> {
            &&& out.data == 0
            &&& clocked(self.ppu, next.ppu)
        }
        &&& next.ram == self.ram
        &&& out.address == pins.address
        &&& out.irq == pins.irq
        &&& out.rst == pins.rst
        &&& out.nmi == next.ppu.nmi
    }

    /// A write as [`Bus::write`] performs it here: RAM, the PPU registers
    /// and PRG RAM take the byte, and the PPU is clocked three dots.
    open spec fn write_rel(&self, pins: Pins, next: Self, out: Pins) -> bool {
        let a = pins.address;
        let d = pins.data;
        &&& a <= 0x1fff && self.ram@.len() == RAM_SIZE ==> next.ram@ == self.ram@.update(
            (a % 0x800) as int,
            d,
        )
        &&& !(a <= 0x1fff && self.ram@.len() == RAM_SIZE) ==> next.ram == self.ram
        &&& exists|p: crate::ppu::Ppu|
            #![trigger clocked(p, next.ppu)]
            clocked(p, next.ppu) && {
                &&& 0x2000 <= a <= 0x2007 && self.ppu.can_write_register(a)
                    ==> self.ppu.wrote_register(p, a, d)
                &&& 0x6000 <= a <= 0x7fff && self.ppu.cartridge.prg_ram@.len() > 0 ==> p == (Ppu {
                    cartridge: NromCartridge { prg_ram: p.cartridge.prg_ram, ..self.ppu.cartridge },
                    ..self.ppu
                }) && p.cartridge.prg_ram@ == self.ppu.cartridge.prg_ram@.update(
                    (a - 0x6000) % (self.ppu.cartridge.prg_ram@.len() as int),
                    d,
                )
                &&& !(0x2000 <= a <= 0x2007 && self.ppu.can_write_register(a)) && !(0x6000 <= a
                    <= 0x7fff && self.ppu.cartridge.prg_ram@.len() > 0) ==> p == self.ppu
            }
        &&& out == (Pins { nmi: next.ppu.nmi, ..pins })
    }

    /// Reads `pins.address` and clocks the PPU. A read that the bus does not
    /// define (a PPU register that the PPU does not answer, an empty ROM)
    /// returns 0 and changes nothing.
    fn read(&mut self, pins: &mut Pins) {
        let address = pins.address;
        pins.data = if self.readable(address) {
            self.read_unclocked(address)
        } else {
            0
        };
        self.clock();
        pins.nmi = self.ppu.nmi;
    }

    /// Writes `pins.data` to `pins.address` and clocks the PPU: RAM, the PPU
    /// registers and PRG RAM take the byte; the I/O registers and ROM ignore
    /// it, as do PPU register writes whose effect is undefined.
    fn write(&mut self, pins: &mut Pins) {
        let address = pins.address;
        let data = pins.data;
        if address <= 0x1fff {
            if self.ram.len() == RAM_SIZE {
                self.ram.set((address % 0x800) as usize, data);
            }
        } else if address <= 0x2007 {
            if self.ppu.register_writable(address) {
                self.ppu.write_register(address, data);
            }
        } else if 0x6000 <= address && address <= 0x7fff {
            if self.ppu.cartridge.prg_ram.len() > 0 {
                self.ppu.cartridge.write_prg(address, data);
            }
        }
        let ghost p = self.ppu;
        self.clock();
        pins.nmi = self.ppu.nmi;
        assert(clocked(p, self.ppu));
    }
}

} // verus!
