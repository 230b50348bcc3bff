use longmode::Registers;

struct DummyCpu {
    registers: Registers,
}

impl DummyCpu {
    fn new() -> Self {
        Self { registers: Registers::new() }
    }

    /// mov rax, 0x1122334455667788; mov rbx, rax
    fn exec_mov_demo(&mut self) {
        self.registers.set_r64(0, 0x1122334455667788);
        let val = self.registers.get_r64(0);
        self.registers.set_r64(1, val);
    }
}

#[test]
fn mov_rax_rbx_64bit_transfer() {
    let mut cpu = DummyCpu::new();
    cpu.exec_mov_demo();
    assert_eq!(cpu.registers.get_r64(0), 0x1122334455667788u64);
    assert_eq!(cpu.registers.get_r64(1), 0x1122334455667788u64);
}

#[test]
fn new_is_all_zero() {
    let r = Registers::new();
    for i in 0..16usize {
        assert_eq!(r.get_r64(i), 0);
    }
    assert_eq!(r.rflags, 0);
}

#[test]
fn write64_then_read64() {
    let mut r = Registers::new();
    r.set_r64(5, 0xdead_beef_0123_4567);
    assert_eq!(r.get_r64(5), 0xdead_beef_0123_4567);
    assert_eq!(r.get_r64(4), 0);
    assert_eq!(r.get_r64(6), 0);
}

#[test]
fn write32_zero_extends() {
    let mut r = Registers::new();
    r.set_r64(3, u64::MAX);
    r.set_r32(3, 0x89ab_cdef);
    assert_eq!(r.get_r64(3), 0x0000_0000_89ab_cdef);
    assert_eq!(r.get_r32(3), 0x89ab_cdef);
}

#[test]
fn write16_keeps_upper_bits() {
    let mut r = Registers::new();
    r.set_r64(2, u64::MAX);
    r.set_r16(2, 0);
    assert_eq!(r.get_r64(2), 0xffff_ffff_ffff_0000);
    r.set_r16(2, 0x1234);
    assert_eq!(r.get_r16(2), 0x1234);
    assert_eq!(r.get_r64(2), 0xffff_ffff_ffff_1234);
}

#[test]
fn write8l_keeps_upper_bits() {
    let mut r = Registers::new();
    r.set_r64(7, u64::MAX);
    r.set_r8l(7, 0);
    assert_eq!(r.get_r64(7), 0xffff_ffff_ffff_ff00);
    r.set_r8l(7, 0x5a);
    assert_eq!(r.get_r8l(7), 0x5a);
    assert_eq!(r.get_r64(7), 0xffff_ffff_ffff_ff5a);
}

#[test]
fn write8h_keeps_other_bits() {
    let mut r = Registers::new();
    r.set_r64(9, u64::MAX);
    r.set_r8h(9, 0);
    assert_eq!(r.get_r64(9), 0xffff_ffff_ffff_00ff);
    r.set_r8h(9, 0xa5);
    assert_eq!(r.get_r8h(9), 0xa5);
    assert_eq!(r.get_r8l(9), 0xff);
    assert_eq!(r.get_r64(9), 0xffff_ffff_ffff_a5ff);
}

#[test]
fn narrow_reads_pick_their_bits() {
    let mut r = Registers::new();
    r.set_r64(15, 0x1122_3344_5566_7788);
    assert_eq!(r.get_r32(15), 0x5566_7788);
    assert_eq!(r.get_r16(15), 0x7788);
    assert_eq!(r.get_r8l(15), 0x88);
    assert_eq!(r.get_r8h(15), 0x77);
}

#[test]
fn index_aliases_modulo_sixteen() {
    let mut r = Registers::new();
    r.set_r64(16 + 4, 0x0102_0304_0506_0708);
    assert_eq!(r.get_r64(4), 0x0102_0304_0506_0708);
    assert_eq!(r.get_r32(20), r.get_r32(4));
    assert_eq!(r.get_r16(20), r.get_r16(4));
    assert_eq!(r.get_r8l(20), r.get_r8l(4));
    assert_eq!(r.get_r8h(20), r.get_r8h(4));
    r.set_r8h(4, 0xee);
    assert_eq!(r.get_r8h(20), 0xee);
    r.set_r16(usize::MAX, 0xbeef);
    assert_eq!(r.get_r16(15), 0xbeef);
}

#[test]
fn flags_are_kept_by_register_writes() {
    let mut r = Registers::new();
    r.rflags = 0x246;
    r.set_r64(0, 1);
    r.set_r32(1, 2);
    r.set_r16(2, 3);
    r.set_r8l(3, 4);
    r.set_r8h(4, 5);
    assert_eq!(r.rflags, 0x246);
}
