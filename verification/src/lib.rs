//! Register-level model of a picture processing unit (PPU) as seen by a host
//! CPU: the address register's double-write latch state machine with its
//! wraparound and 14-bit mirroring rules, and the control register's packed
//! configuration flags.

pub mod addr;
pub mod cartridge;
pub mod control;
pub mod ppu;
