use gb_core::cpu::flags::Flag;
use gb_core::cpu::{combine_h_l, init, to_h_l, CPU};

#[test]
fn reset_state_has_architectural_values() {
    let cpu = init();
    assert_eq!(cpu.pc, 0x0100);
    assert_eq!(cpu.sp, 0xfffe);
    assert_eq!(cpu.a, 0x00);
    assert_eq!(cpu.b, 0x00);
    assert_eq!(cpu.c, 0x00);
    assert_eq!(cpu.d, 0x00);
    assert_eq!(cpu.e, 0x00);
    assert_eq!(cpu.f, 0x00);
    assert_eq!(cpu.h, 0x00);
    assert_eq!(cpu.l, 0x00);
    assert_eq!(cpu.af(), 0x0000);
    assert_eq!(cpu.bc(), 0x0000);
    assert_eq!(cpu.de(), 0x0000);
    assert_eq!(cpu.hl(), 0x0000);
}

#[test]
fn to_h_l_gives_high_byte_first() {
    assert_eq!(to_h_l(0x1234), (0x12, 0x34));
    assert_eq!(to_h_l(0x0000), (0x00, 0x00));
    assert_eq!(to_h_l(0xffff), (0xff, 0xff));
    assert_eq!(to_h_l(0x00ff), (0x00, 0xff));
    assert_eq!(to_h_l(0xff00), (0xff, 0x00));
    assert_eq!(to_h_l(0x0100), (0x01, 0x00));
}

#[test]
fn combine_h_l_takes_high_byte_first() {
    assert_eq!(combine_h_l(0x12, 0x34), 0x1234);
    assert_eq!(combine_h_l(0x00, 0x00), 0x0000);
    assert_eq!(combine_h_l(0xff, 0xff), 0xffff);
    assert_eq!(combine_h_l(0x00, 0xff), 0x00ff);
    assert_eq!(combine_h_l(0xff, 0x00), 0xff00);
    assert_eq!(combine_h_l(0x01, 0x00), 0x0100);
}

#[test]
fn split_and_combine_are_inverses_of_each_other() {
    for v in 0..=0xffffu16 {
        let (high, low) = to_h_l(v);
        assert_eq!(combine_h_l(high, low), v);
    }
    for high in 0..=0xffu8 {
        for low in 0..=0xffu8 {
            assert_eq!(to_h_l(combine_h_l(high, low)), (high, low));
        }
    }
}

#[test]
fn af_round_trip_over_every_value() {
    let mut cpu = init();
    for v in 0..=0xffffu16 {
        cpu.af_set(v);
        assert_eq!(cpu.af(), v);
    }
}

#[test]
fn bc_round_trip_over_every_value() {
    let mut cpu = init();
    for v in 0..=0xffffu16 {
        cpu.bc_set(v);
        assert_eq!(cpu.bc(), v);
    }
}

#[test]
fn de_round_trip_over_every_value() {
    let mut cpu = init();
    for v in 0..=0xffffu16 {
        cpu.de_set(v);
        assert_eq!(cpu.de(), v);
    }
}

#[test]
fn hl_round_trip_over_every_value() {
    let mut cpu = init();
    for v in 0..=0xffffu16 {
        cpu.hl_set(v);
        assert_eq!(cpu.hl(), v);
    }
}

#[test]
fn af_set_puts_high_byte_in_a_and_low_byte_in_f() {
    let mut cpu = init();
    cpu.af_set(0x12f0);
    assert_eq!(cpu.a, 0x12);
    assert_eq!(cpu.f, 0xf0);
    let expected = CPU { a: 0x12, f: 0xf0, ..init() };
    assert_eq!(cpu, expected);
}

#[test]
fn bc_set_puts_high_byte_in_b_and_low_byte_in_c() {
    let mut cpu = init();
    cpu.bc_set(0xabcd);
    assert_eq!(cpu, CPU { b: 0xab, c: 0xcd, ..init() });
}

#[test]
fn de_set_puts_high_byte_in_d_and_low_byte_in_e() {
    let mut cpu = init();
    cpu.de_set(0x00ff);
    assert_eq!(cpu, CPU { d: 0x00, e: 0xff, ..init() });
}

#[test]
fn hl_set_puts_high_byte_in_h_and_low_byte_in_l() {
    let mut cpu = init();
    cpu.hl_set(0x8001);
    assert_eq!(cpu, CPU { h: 0x80, l: 0x01, ..init() });
}

#[test]
fn pairs_read_from_their_two_registers() {
    let cpu = CPU {
        a: 0x01,
        f: 0x02,
        b: 0x03,
        c: 0x04,
        d: 0x05,
        e: 0x06,
        h: 0x07,
        l: 0x08,
        sp: 0x1111,
        pc: 0x2222,
    };
    assert_eq!(cpu.af(), 0x0102);
    assert_eq!(cpu.bc(), 0x0304);
    assert_eq!(cpu.de(), 0x0506);
    assert_eq!(cpu.hl(), 0x0708);
}

#[test]
fn writing_one_pair_leaves_the_others_alone() {
    let mut cpu = init();
    cpu.af_set(0x1122);
    cpu.bc_set(0x3344);
    cpu.de_set(0x5566);
    cpu.hl_set(0x7788);
    assert_eq!(cpu.af(), 0x1122);
    assert_eq!(cpu.bc(), 0x3344);
    assert_eq!(cpu.de(), 0x5566);
    assert_eq!(cpu.hl(), 0x7788);
    assert_eq!(cpu.pc, 0x0100);
    assert_eq!(cpu.sp, 0xfffe);
}

#[test]
fn writing_back_what_was_read_changes_nothing() {
    let before = CPU {
        a: 0x9a,
        f: 0xb0,
        b: 0x01,
        c: 0xfe,
        d: 0x7f,
        e: 0x80,
        h: 0x00,
        l: 0xff,
        sp: 0xc000,
        pc: 0x0150,
    };
    let mut cpu = before;
    cpu.af_set(before.af());
    cpu.bc_set(before.bc());
    cpu.de_set(before.de());
    cpu.hl_set(before.hl());
    assert_eq!(cpu, before);
}

#[test]
fn flag_masks_lie_in_the_upper_nibble() {
    assert_eq!(Flag::Zero.mask(), 0x80);
    assert_eq!(Flag::Subtract.mask(), 0x40);
    assert_eq!(Flag::HalfCarry.mask(), 0x20);
    assert_eq!(Flag::Carry.mask(), 0x10);
}

#[test]
fn flags_read_from_the_f_register() {
    let mut cpu = init();
    assert!(!cpu.flag(Flag::Zero));
    assert!(!cpu.flag(Flag::Subtract));
    assert!(!cpu.flag(Flag::HalfCarry));
    assert!(!cpu.flag(Flag::Carry));
    cpu.af_set(0x00a0);
    assert!(cpu.flag(Flag::Zero));
    assert!(!cpu.flag(Flag::Subtract));
    assert!(cpu.flag(Flag::HalfCarry));
    assert!(!cpu.flag(Flag::Carry));
    cpu.af_set(0x005f);
    assert!(!cpu.flag(Flag::Zero));
    assert!(cpu.flag(Flag::Subtract));
    assert!(!cpu.flag(Flag::HalfCarry));
    assert!(cpu.flag(Flag::Carry));
}

#[test]
fn set_flag_changes_one_bit_of_f() {
    let mut cpu = init();
    cpu.set_flag(Flag::Zero, true);
    assert_eq!(cpu.f, 0x80);
    cpu.set_flag(Flag::Carry, true);
    assert_eq!(cpu.f, 0x90);
    cpu.set_flag(Flag::Carry, true);
    assert_eq!(cpu.f, 0x90);
    cpu.set_flag(Flag::Subtract, true);
    assert_eq!(cpu.f, 0xd0);
    cpu.set_flag(Flag::HalfCarry, true);
    assert_eq!(cpu.f, 0xf0);
    cpu.set_flag(Flag::Zero, false);
    assert_eq!(cpu.f, 0x70);
    cpu.set_flag(Flag::Zero, false);
    assert_eq!(cpu.f, 0x70);
    assert_eq!(cpu, CPU { f: 0x70, ..init() });
}

#[test]
fn set_flag_keeps_the_other_bits_for_every_f() {
    let flags = [Flag::Zero, Flag::Subtract, Flag::HalfCarry, Flag::Carry];
    for f in 0..=0xffu8 {
        for flag in flags {
            for on in [false, true] {
                let mut cpu = CPU { f, ..init() };
                cpu.set_flag(flag, on);
                assert_eq!(cpu.flag(flag), on);
                assert_eq!(cpu.f & !flag.mask(), f & !flag.mask());
                for other in flags {
                    if other != flag {
                        assert_eq!(cpu.flag(other), f & other.mask() != 0);
                    }
                }
                assert_eq!(cpu, CPU { f: cpu.f, ..init() });
            }
        }
    }
}
