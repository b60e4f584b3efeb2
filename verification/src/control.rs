use vstd::prelude::*;

verus! {

/// The control register (CPU port 0x2000): eight independent configuration
/// flags packed into one byte. Each CPU write replaces the whole byte; other
/// PPU subsystems read the flags through bit-test queries.
pub struct ControlRegister {
    bits: u8,
}

impl ControlRegister {
    /// Base nametable select, low bit.
    pub const NAMETABLE1: u8 = 0b00000001;

    /// Base nametable select, high bit.
    pub const NAMETABLE2: u8 = 0b00000010;

    /// Address step after a data-port access: 32 when set, 1 when clear.
    pub const VRAM_ADD_INCREMENT: u8 = 0b00000100;

    /// Sprite pattern table select (for 8x8 sprites).
    pub const SPRITE_PATTERN_ADDR: u8 = 0b00001000;

    /// Background pattern table select.
    pub const BACKGROUND_PATTERN_ADDR: u8 = 0b00010000;

    /// Sprite size select: 8x16 when set, 8x8 when clear.
    pub const SPRITE_SIZE: u8 = 0b00100000;

    /// Master/slave select on the EXT pins.
    pub const MASTER_SLAVE_SELECT: u8 = 0b01000000;

    /// Generate an NMI at the start of vertical blank when set.
    pub const GENERATE_NMI: u8 = 0b10000000;

    /// The stored flag byte: exactly the value last written.
    pub closed spec fn spec_bits(self) -> u8 {
        self.bits
    }

    /// The flag with mask `flag` reads as set: its bit is one in the stored
    /// byte.
    pub open spec fn spec_contains(self, flag: u8) -> bool {
        self.spec_bits() & flag != 0
    }

    /// Power-on state: all flags clear.
    pub fn new() -> (r: Self)
        ensures
            r.spec_bits() == 0,
    {
        ControlRegister { bits: 0 }
    }

    /// Tests the flag with mask `flag` against the stored byte.
    pub fn contains(&self, flag: u8) -> (r: bool)
        ensures
            r == self.spec_contains(flag),
    {
        self.bits & flag != 0
    }

    /// Returns the address step the dispatcher must pass to the address
    /// register after a data-port access: 32 if VRAM_ADD_INCREMENT is set in
    /// the stored byte, else 1.
    pub fn vram_addr_increment(&self) -> (r: u8)
        ensures
            r == (if self.spec_contains(Self::VRAM_ADD_INCREMENT) { 32u8 } else { 1u8 }),
    {
        if !self.contains(ControlRegister::VRAM_ADD_INCREMENT) {
            1
        } else {
            32
        }
    }

    /// Replaces the whole stored byte with `data`. Every byte value is
    /// accepted and no bit is forced.
    pub fn update(&mut self, data: u8)
        ensures
            final(self).spec_bits() == data,
    {
        self.bits = data;
    }

    /// The byte rebuilt from the eight flag predicates: each named bit is
    /// included exactly when its flag reads as set.
    pub open spec fn spec_reconstruct(self) -> u8 {
        (if self.spec_contains(Self::NAMETABLE1) { Self::NAMETABLE1 } else { 0u8 })
            | (if self.spec_contains(Self::NAMETABLE2) { Self::NAMETABLE2 } else { 0u8 })
            | (if self.spec_contains(Self::VRAM_ADD_INCREMENT) { Self::VRAM_ADD_INCREMENT } else { 0u8 })
            | (if self.spec_contains(Self::SPRITE_PATTERN_ADDR) { Self::SPRITE_PATTERN_ADDR } else { 0u8 })
            | (if self.spec_contains(Self::BACKGROUND_PATTERN_ADDR) { Self::BACKGROUND_PATTERN_ADDR } else { 0u8 })
            | (if self.spec_contains(Self::SPRITE_SIZE) { Self::SPRITE_SIZE } else { 0u8 })
            | (if self.spec_contains(Self::MASTER_SLAVE_SELECT) { Self::MASTER_SLAVE_SELECT } else { 0u8 })
            | (if self.spec_contains(Self::GENERATE_NMI) { Self::GENERATE_NMI } else { 0u8 })
    }

    /// Law: the eight flag predicates together determine the stored byte
    /// exactly: the byte rebuilt from them equals the byte last written.
    pub proof fn lemma_flags_round_trip(self)
        ensures
            self.spec_reconstruct() == self.spec_bits(),
    {
        let b = self.spec_bits();
        assert(((if b & 0b00000001 != 0 { 0b00000001u8 } else { 0u8 })
            | (if b & 0b00000010 != 0 { 0b00000010u8 } else { 0u8 })
            | (if b & 0b00000100 != 0 { 0b00000100u8 } else { 0u8 })
            | (if b & 0b00001000 != 0 { 0b00001000u8 } else { 0u8 })
            | (if b & 0b00010000 != 0 { 0b00010000u8 } else { 0u8 })
            | (if b & 0b00100000 != 0 { 0b00100000u8 } else { 0u8 })
            | (if b & 0b01000000 != 0 { 0b01000000u8 } else { 0u8 })
            | (if b & 0b10000000 != 0 { 0b10000000u8 } else { 0u8 })) == b) by (bit_vector);
    }
}

} // verus!
