use vstd::prelude::*;
use crate::addr::AddrRegister;
use crate::cartridge::Mirroring;

verus! {

/// The PPU as the host CPU sees it: its memories, the attached cartridge
/// data, and the address register behind the address port. The memory-access
/// dispatcher that routes CPU reads and writes lives outside this core.
pub struct NesPPU {
    pub chr_rom: Vec<u8>,
    pub palette_table: [u8; 32],
    pub vram: [u8; 2048],
    pub oam_data: [u8; 256],
    addr: AddrRegister,
    pub mirroring: Mirroring,
}

impl NesPPU {
    /// The internal address register.
    pub closed spec fn spec_addr(self) -> AddrRegister {
        self.addr
    }

    /// The cartridge character data, as a sequence of bytes.
    pub closed spec fn spec_chr_rom(self) -> Seq<u8> {
        self.chr_rom@
    }

    /// The palette table, as a sequence of bytes.
    pub closed spec fn spec_palette_table(self) -> Seq<u8> {
        self.palette_table@
    }

    /// The video memory, as a sequence of bytes.
    pub closed spec fn spec_vram(self) -> Seq<u8> {
        self.vram@
    }

    /// The object attribute memory, as a sequence of bytes.
    pub closed spec fn spec_oam_data(self) -> Seq<u8> {
        self.oam_data@
    }

    /// The cartridge's mirroring mode.
    pub closed spec fn spec_mirroring(self) -> Mirroring {
        self.mirroring
    }

    /// Power-on state: memories zeroed, the given cartridge data and
    /// mirroring mode attached, and the address register cleared with its
    /// latch expecting a high byte.
    pub fn new(chr_rom: Vec<u8>, mirroring: Mirroring) -> (r: Self)
        ensures
            r.spec_chr_rom() == chr_rom@,
            r.spec_mirroring() == mirroring,
            r.spec_vram().len() == 2048,
            forall|i: int| 0 <= i < 2048 ==> #[trigger] r.spec_vram()[i] == 0u8,
            r.spec_oam_data().len() == 256,
            forall|i: int| 0 <= i < 256 ==> #[trigger] r.spec_oam_data()[i] == 0u8,
            r.spec_palette_table().len() == 32,
            forall|i: int| 0 <= i < 32 ==> #[trigger] r.spec_palette_table()[i] == 0u8,
            r.spec_addr().spec_get() == 0,
            r.spec_addr().expects_high(),
            r.spec_addr().wf(),
    {
        NesPPU {
            chr_rom: chr_rom,
            mirroring: mirroring,
            vram: [0; 2048],
            oam_data: [0; 256],
            palette_table: [0; 32],
            addr: AddrRegister::new(),
        }
    }

    /// Routes a CPU write to the address port into the address register; the
    /// memories and the mirroring mode are untouched.
    pub fn write_to_ppu_addr(&mut self, value: u8)
        requires
            old(self).spec_addr().wf(),
        ensures
            final(self).spec_addr().wf(),
            final(self).spec_addr().expects_high() == !old(self).spec_addr().expects_high(),
            old(self).spec_addr().expects_high() ==> final(self).spec_addr().spec_get()
                == (((value as u16) << 8) | (old(self).spec_addr().spec_get() & 0xff)) & 0x3fff,
            !old(self).spec_addr().expects_high() ==> final(self).spec_addr().spec_get()
                == ((old(self).spec_addr().spec_get() & 0xff00) | (value as u16)) & 0x3fff,
            final(self).spec_chr_rom() == old(self).spec_chr_rom(),
            final(self).spec_palette_table() == old(self).spec_palette_table(),
            final(self).spec_vram() == old(self).spec_vram(),
            final(self).spec_oam_data() == old(self).spec_oam_data(),
            final(self).spec_mirroring() == old(self).spec_mirroring(),
    {
        self.addr.update(value);
    }
}

} // verus!
