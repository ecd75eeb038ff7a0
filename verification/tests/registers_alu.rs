use gmbr::alu::{
    is_carry_add16, is_carry_add8, is_carry_sub16, is_carry_sub8, is_half_carry_add16, is_half_carry_add8,
    is_half_carry_sub16, is_half_carry_sub8,
};
use gmbr::registers::{CpuFlags, Registers};

#[test]
fn power_on_register_values() {
    let r = Registers::new();
    assert_eq!(r.a, 0x01);
    assert_eq!(r.flags(), 0xB0);
    assert_eq!(r.sp, 0xFFFE);
    assert_eq!(r.pc, 0x0100);
    assert_eq!(r.b, 0x00);
    assert_eq!(r.c, 0x13);
    assert_eq!(r.d, 0x00);
    assert_eq!(r.e, 0xD8);
    assert_eq!(r.h, 0x01);
    assert_eq!(r.l, 0x4D);
    assert_eq!(r.af(), 0x01B0);
    assert_eq!(r.bc(), 0x0013);
    assert_eq!(r.de(), 0x00D8);
    assert_eq!(r.hl(), 0x014D);
    assert!(r.get_flag(CpuFlags::Z));
    assert!(!r.get_flag(CpuFlags::N));
    assert!(r.get_flag(CpuFlags::H));
    assert!(r.get_flag(CpuFlags::C));
}

#[test]
fn flag_masks() {
    assert_eq!(CpuFlags::C.mask(), 0x10);
    assert_eq!(CpuFlags::H.mask(), 0x20);
    assert_eq!(CpuFlags::N.mask(), 0x40);
    assert_eq!(CpuFlags::Z.mask(), 0x80);
}

#[test]
fn register_pairs_round_trip() {
    let mut r = Registers::new();
    r.setbc(0x1234);
    assert_eq!((r.b, r.c), (0x12, 0x34));
    assert_eq!(r.bc(), 0x1234);
    r.setde(0xABCD);
    assert_eq!((r.d, r.e), (0xAB, 0xCD));
    assert_eq!(r.de(), 0xABCD);
    r.sethl(0xFFFF);
    assert_eq!(r.hl(), 0xFFFF);
    assert_eq!(r.hl_and_inc(), 0xFFFF);
    assert_eq!(r.hl(), 0x0000);
    assert_eq!(r.hl_and_dec(), 0x0000);
    assert_eq!(r.hl(), 0xFFFF);
    r.decrement_hl();
    assert_eq!(r.hl(), 0xFFFE);
    r.increment_hl();
    assert_eq!(r.hl(), 0xFFFF);
}

#[test]
fn low_nibble_of_flags_is_always_zero() {
    let mut r = Registers::new();
    for value in 0..=0xFFFFu16 {
        r.setaf(value);
        assert_eq!(r.flags() & 0x0F, 0);
        assert_eq!(r.af(), value & 0xFFF0);
    }
    r.setaf(0x12FF);
    assert_eq!(r.a, 0x12);
    assert_eq!(r.flags(), 0xF0);
}

#[test]
fn set_and_get_each_flag() {
    let mut r = Registers::new();
    r.setaf(0);
    r.set_flags(CpuFlags::Z, true);
    assert_eq!(r.flags(), 0x80);
    r.set_flags(CpuFlags::C, true);
    assert_eq!(r.flags(), 0x90);
    r.set_flags(CpuFlags::H, true);
    r.set_flags(CpuFlags::N, true);
    assert_eq!(r.flags(), 0xF0);
    r.set_flags(CpuFlags::Z, false);
    assert_eq!(r.flags(), 0x70);
    assert!(!r.get_flag(CpuFlags::Z));
    assert!(r.get_flag(CpuFlags::N));
}

#[test]
fn registers_by_index() {
    let mut r = Registers::new();
    let indices = [0u8, 1, 2, 3, 4, 5, 7];
    for (n, index) in indices.iter().enumerate() {
        r.set_register_by_index(*index, 0x10 + n as u8);
    }
    assert_eq!((r.b, r.c, r.d, r.e, r.h, r.l, r.a), (0x10, 0x11, 0x12, 0x13, 0x14, 0x15, 0x16));
    for (n, index) in indices.iter().enumerate() {
        assert_eq!(r.get_register_by_index(*index), 0x10 + n as u8);
    }
}

#[test]
fn add8_wraps_and_sets_flags_for_all_operands() {
    for a in 0..=255u8 {
        for b in 0..=255u8 {
            let mut r = Registers::new();
            r.a = a;
            r.alu_add(b);
            assert_eq!(r.a as u16, (a as u16 + b as u16) % 256);
            assert_eq!(r.get_flag(CpuFlags::H), (a & 0xF) + (b & 0xF) > 0xF);
            assert_eq!(r.get_flag(CpuFlags::C), a as u16 + b as u16 > 0xFF);
            assert_eq!(r.get_flag(CpuFlags::Z), r.a == 0);
            assert!(!r.get_flag(CpuFlags::N));
        }
    }
}

#[test]
fn add8_exact_values() {
    let mut r = Registers::new();
    r.a = 0x3A;
    r.alu_add(0xC6);
    assert_eq!(r.a, 0x00);
    assert_eq!(r.flags(), 0xB0);
    r.a = 0x0F;
    r.alu_add(0x01);
    assert_eq!(r.a, 0x10);
    assert_eq!(r.flags(), 0x20);
}

#[test]
fn dec_undoes_inc_for_all_values() {
    for a in 0..=255u8 {
        let mut r = Registers::new();
        let up = r.alu_inc(a);
        let down = r.alu_dec(up);
        assert_eq!(down, a);
    }
}

#[test]
fn inc_and_dec_recompute_their_flags() {
    for a in 0..=255u8 {
        for stale in [0x00u16, 0xF0] {
            let mut r = Registers::new();
            r.setaf(stale);
            let carry = r.get_flag(CpuFlags::C);
            let up = r.alu_inc(a);
            assert_eq!(up, a.wrapping_add(1));
            assert_eq!(r.get_flag(CpuFlags::Z), up == 0);
            assert_eq!(r.get_flag(CpuFlags::H), a & 0xF == 0xF);
            assert!(!r.get_flag(CpuFlags::N));
            assert_eq!(r.get_flag(CpuFlags::C), carry);
            r.setaf(stale);
            let down = r.alu_dec(a);
            assert_eq!(down, a.wrapping_sub(1));
            assert_eq!(r.get_flag(CpuFlags::Z), down == 0);
            assert_eq!(r.get_flag(CpuFlags::H), a & 0xF == 0);
            assert!(r.get_flag(CpuFlags::N));
            assert_eq!(r.get_flag(CpuFlags::C), carry);
        }
    }
}

#[test]
fn sub_and_compare() {
    let mut r = Registers::new();
    r.a = 0x3E;
    r.alu_sub8(0x3E);
    assert_eq!(r.a, 0);
    assert_eq!(r.flags(), 0xC0);
    r.a = 0x3E;
    r.alu_sub8(0x0F);
    assert_eq!(r.a, 0x2F);
    assert_eq!(r.flags(), 0x60);
    r.a = 0x3E;
    r.alu_sub8(0x40);
    assert_eq!(r.a, 0xFE);
    assert_eq!(r.flags(), 0x50);
    r.a = 0x3C;
    r.alu_cp(0x40);
    assert_eq!(r.a, 0x3C);
    assert_eq!(r.flags(), 0x50);
    r.a = 0x3C;
    assert_eq!(r.alu_sub(0x3C), 0);
    assert_eq!(r.a, 0x3C);
    assert_eq!(r.flags(), 0xC0);
}

#[test]
fn add_and_subtract_with_carry() {
    let mut r = Registers::new();
    r.setaf(0xE110);
    r.alu_adc(0x0F);
    assert_eq!(r.a, 0xF1);
    assert_eq!(r.flags(), 0x20);
    r.setaf(0xE110);
    r.alu_adc(0x1E);
    assert_eq!(r.a, 0x00);
    assert_eq!(r.flags(), 0xB0);
    r.setaf(0xFF10);
    r.alu_adc(0xFF);
    assert_eq!(r.a, 0xFF);
    assert_eq!(r.flags(), 0x30);
    r.setaf(0x3B10);
    r.alu_sbc(0x2A);
    assert_eq!(r.a, 0x10);
    assert_eq!(r.flags(), 0x40);
    r.setaf(0x3B10);
    r.alu_sbc(0x3A);
    assert_eq!(r.a, 0x00);
    assert_eq!(r.flags(), 0xC0);
    r.setaf(0x3B10);
    r.alu_sbc(0x4F);
    assert_eq!(r.a, 0xEB);
    assert_eq!(r.flags(), 0x70);
    r.setaf(0x0010);
    r.alu_sbc(0xFF);
    assert_eq!(r.a, 0x00);
    assert_eq!(r.flags(), 0xF0);
}

#[test]
fn logic_operations() {
    let mut r = Registers::new();
    r.a = 0x5A;
    r.alu_and(0x3F);
    assert_eq!(r.a, 0x1A);
    assert_eq!(r.flags(), 0x20);
    r.a = 0x5A;
    r.alu_and(0xA5);
    assert_eq!(r.a, 0x00);
    assert_eq!(r.flags(), 0xA0);
    r.a = 0xFF;
    r.alu_xor(0xFF);
    assert_eq!(r.a, 0x00);
    assert_eq!(r.flags(), 0x80);
    r.a = 0x5A;
    r.alu_or(0x0F);
    assert_eq!(r.a, 0x5F);
    assert_eq!(r.flags(), 0x00);
    r.a = 0x35;
    r.alu_cpl();
    assert_eq!(r.a, 0xCA);
    assert_eq!(r.flags(), 0x60);
    r.setaf(0x00F0);
    r.alu_ccf();
    assert_eq!(r.flags(), 0x80);
    r.alu_ccf();
    assert_eq!(r.flags(), 0x90);
}

#[test]
fn sixteen_bit_addition() {
    let mut r = Registers::new();
    r.setaf(0x0080);
    assert_eq!(r.alu_add16(0x8A23, 0x0605), 0x9028);
    assert_eq!(r.flags(), 0xA0);
    assert_eq!(r.alu_add16(0x8A23, 0x8A23), 0x1446);
    assert_eq!(r.flags(), 0xB0);
    assert_eq!(r.alu_add16(0xFFFF, 0x0001), 0x0000);
    assert_eq!(r.flags(), 0xB0);
    r.setaf(0x0000);
    assert_eq!(r.alu_add16(0x0001, 0x0001), 0x0002);
    assert_eq!(r.flags(), 0x00);
}

#[test]
fn rotations() {
    let mut r = Registers::new();
    r.setaf(0);
    assert_eq!(r.alu_rlca(0x85), 0x0B);
    assert_eq!(r.flags(), 0x10);
    assert_eq!(r.alu_rrca(0x3B), 0x9D);
    assert_eq!(r.flags(), 0x10);
    r.setaf(0x0010);
    assert_eq!(r.alu_rla(0x95), 0x2B);
    assert_eq!(r.flags(), 0x10);
    r.setaf(0x0000);
    assert_eq!(r.alu_rra(0x81), 0x40);
    assert_eq!(r.flags(), 0x10);
    assert_eq!(r.alu_rra(0x00), 0x80);
    assert_eq!(r.flags(), 0x00);
    assert_eq!(r.alu_rlca(0x00), 0x00);
    assert_eq!(r.flags(), 0x80);
    for value in 0..=255u8 {
        assert_eq!(r.alu_rlca(value), value.rotate_left(1));
        assert_eq!(r.alu_rrca(value), value.rotate_right(1));
    }
}

#[test]
fn carry_predicates() {
    assert!(is_carry_add8(0xFF, 0x01));
    assert!(!is_carry_add8(0xFE, 0x01));
    assert!(is_carry_add16(0xFFFF, 0x0001));
    assert!(!is_carry_add16(0xFFFE, 0x0001));
    assert!(is_carry_sub8(0x00, 0x01));
    assert!(!is_carry_sub8(0x01, 0x01));
    assert!(is_carry_sub16(0x0000, 0x0001));
    assert!(!is_carry_sub16(0x0001, 0x0001));
    assert!(is_half_carry_add8(0x0F, 0x01));
    assert!(!is_half_carry_add8(0x0E, 0x01));
    assert!(is_half_carry_add16(0x0FFF, 0x0001));
    assert!(!is_half_carry_add16(0x0FFE, 0x0001));
    assert!(!is_half_carry_add16(0x07FF, 0x0001));
    assert!(is_half_carry_sub8(0x10, 0x01));
    assert!(!is_half_carry_sub8(0x11, 0x01));
    assert!(is_half_carry_sub16(0x1000, 0x0001));
    assert!(!is_half_carry_sub16(0x1001, 0x0001));
}
