use ppu_registers::addr::AddrRegister;

#[test]
fn new_starts_at_zero() {
    let a = AddrRegister::new();
    assert_eq!(a.get(), 0x0000);
}

#[test]
fn double_write_sets_address() {
    let mut a = AddrRegister::new();
    a.update(0x21);
    a.update(0x08);
    assert_eq!(a.get(), 0x2108);
}

#[test]
fn double_write_after_reset() {
    let mut a = AddrRegister::new();
    a.update(0x15);
    a.reset_latch();
    a.update(0x06);
    a.update(0x50);
    assert_eq!(a.get(), 0x0650);
}

#[test]
fn latch_alternates_with_period_two() {
    let mut a = AddrRegister::new();
    a.update(0x10);
    a.update(0x20);
    assert_eq!(a.get(), 0x1020);
    // The third and fourth writes fill high then low again.
    a.update(0x30);
    a.update(0x01);
    assert_eq!(a.get(), 0x3001);
}

#[test]
fn reset_latch_is_idempotent() {
    let mut a = AddrRegister::new();
    a.update(0x12);
    a.reset_latch();
    a.reset_latch();
    // The next write still fills the high byte.
    a.update(0x34);
    a.update(0x56);
    assert_eq!(a.get(), 0x3456 & 0x3fff);
}

#[test]
fn reset_latch_keeps_the_address() {
    let mut a = AddrRegister::new();
    a.update(0x23);
    a.update(0x45);
    a.reset_latch();
    assert_eq!(a.get(), 0x2345);
}

#[test]
fn increment_carries_into_high_byte() {
    let mut a = AddrRegister::new();
    a.update(0x00);
    a.update(0xff);
    assert_eq!(a.get(), 0x00ff);
    a.increment(1);
    assert_eq!(a.get(), 0x0100);
}

#[test]
fn increment_wraps_at_fourteen_bits() {
    let mut a = AddrRegister::new();
    a.update(0x3f);
    a.update(0xff);
    assert_eq!(a.get(), 0x3fff);
    a.increment(1);
    assert_eq!(a.get(), 0x0000);
}

#[test]
fn increment_by_thirty_two_carries() {
    let mut a = AddrRegister::new();
    a.update(0x21);
    a.update(0xff);
    a.increment(32);
    assert_eq!(a.get(), 0x221f);
}

#[test]
fn write_masks_to_fourteen_bits() {
    let mut a = AddrRegister::new();
    a.update(0x40);
    a.update(0x00);
    assert_eq!(a.get(), 0x0000);
    assert!(a.get() <= 0x3fff);

    let mut b = AddrRegister::new();
    b.update(0xff);
    b.update(0xff);
    assert_eq!(b.get(), 0x3fff);
    assert!(b.get() <= 0x3fff);
}
