pub mod bit;
pub mod bus;
pub mod cartridge;
pub mod cpu;
pub mod header;
pub mod mapper;
pub mod nrom;
pub mod ppu;
pub mod scheduler;
pub mod timeline;
pub mod simple_ppu;
pub mod triple_buffer;
pub mod emu;
pub mod emu_ppu;
pub mod dispatch;
