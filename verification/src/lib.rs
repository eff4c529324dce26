//! Core of a NES emulator: the 6502 CPU, the audio processing unit, the
//! cartridge mappers and the controllers, with their behaviour stated as
//! Verus contracts.
pub mod common;
pub mod memory;
pub mod cpu;
pub mod apu;
pub mod controllers;
pub mod cpu_ram_apu;
pub mod mappers;
pub mod nes;
pub mod colors;
pub mod cpu_ppu;
pub mod io;
pub mod frontend;
