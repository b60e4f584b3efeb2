use ppu_registers::addr::AddrRegister;
use ppu_registers::cartridge::Mirroring;
use ppu_registers::control::ControlRegister;
use ppu_registers::ppu::NesPPU;

#[test]
fn power_on_state() {
    let ppu = NesPPU::new(vec![1, 2, 3], Mirroring::Horizontal);
    assert_eq!(ppu.chr_rom, vec![1, 2, 3]);
    assert_eq!(ppu.mirroring, Mirroring::Horizontal);
    assert_eq!(ppu.vram.len(), 2048);
    assert!(ppu.vram.iter().all(|&b| b == 0));
    assert_eq!(ppu.oam_data.len(), 256);
    assert!(ppu.oam_data.iter().all(|&b| b == 0));
    assert_eq!(ppu.palette_table.len(), 32);
    assert!(ppu.palette_table.iter().all(|&b| b == 0));
}

#[test]
fn address_port_writes_leave_memories_alone() {
    let mut ppu = NesPPU::new(vec![7, 7], Mirroring::Vertical);
    ppu.write_to_ppu_addr(0x21);
    ppu.write_to_ppu_addr(0x08);
    assert_eq!(ppu.chr_rom, vec![7, 7]);
    assert_eq!(ppu.mirroring, Mirroring::Vertical);
    assert!(ppu.vram.iter().all(|&b| b == 0));
}

#[test]
fn data_port_round_trip() {
    // A dispatcher's view of one CPU sequence: configure the control
    // register, load an address, then step by the configured increment.
    let mut ctrl = ControlRegister::new();
    let mut addr = AddrRegister::new();
    ctrl.update(0);
    addr.update(0x21);
    addr.update(0x08);
    assert_eq!(addr.get(), 0x2108);
    let step = ctrl.vram_addr_increment();
    assert_eq!(step, 1);
    addr.increment(step);
    assert_eq!(addr.get(), 0x2109);
}

#[test]
fn data_port_round_trip_with_increment_thirty_two() {
    let mut ctrl = ControlRegister::new();
    let mut addr = AddrRegister::new();
    ctrl.update(0b00000100);
    addr.update(0x21);
    addr.update(0x08);
    let step = ctrl.vram_addr_increment();
    assert_eq!(step, 32);
    addr.increment(step);
    assert_eq!(addr.get(), 0x2128);
}
