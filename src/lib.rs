//! A cycle-stepped Game Boy emulation core: CPU, memory bus, pixel
//! processing unit, timer, joypad, serial link and the state transfer
//! helpers around them.

pub mod ppu;
pub mod render;
pub mod timer;
pub mod pad;
pub mod apu;
pub mod serial;
pub mod mmu;
pub mod cpu;
pub mod inst;
pub mod exec;
pub mod step;
pub mod gb;
pub mod data;
pub mod rle;
pub mod state;
