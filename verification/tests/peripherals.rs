use gmbr::interrupt_controller::{InterruptController, InterruptFlags};
use gmbr::interrupts::Interrupts;
use gmbr::joypad::{Joypad, KeyValue};
use gmbr::link_cable::LinkCable;
use gmbr::timer::Timer;

#[test]
fn interrupt_priority_order() {
    let mut c = InterruptController::new();
    c.set_ie(0b0001_1111);
    c.set_iflag(0b0001_1111);
    assert_eq!(c.get_first_interrupt(), Some(InterruptFlags::VBlank));
    c.clear_interrupt_flag(InterruptFlags::VBlank);
    assert_eq!(c.get_first_interrupt(), Some(InterruptFlags::LCDStat));
    c.clear_interrupt_flag(InterruptFlags::LCDStat);
    assert_eq!(c.get_first_interrupt(), Some(InterruptFlags::Timer));
    c.clear_interrupt_flag(InterruptFlags::Timer);
    assert_eq!(c.get_first_interrupt(), Some(InterruptFlags::Serial));
    c.clear_interrupt_flag(InterruptFlags::Serial);
    assert_eq!(c.get_first_interrupt(), Some(InterruptFlags::Joypad));
    c.clear_interrupt_flag(InterruptFlags::Joypad);
    assert_eq!(c.get_first_interrupt(), None);
    assert_eq!(c.iflag(), 0);
}

#[test]
fn interrupt_needs_request_and_enable() {
    let mut c = InterruptController::new();
    assert_eq!(c.get_first_interrupt(), None);
    c.set_interrupt_flag(InterruptFlags::Timer);
    assert_eq!(c.iflag(), 0b0000_0100);
    assert_eq!(c.get_first_interrupt(), None);
    c.set_ie(0b0001_0000);
    assert_eq!(c.get_first_interrupt(), None);
    c.set_interrupt_flag(InterruptFlags::Joypad);
    assert_eq!(c.iflag(), 0b0001_0100);
    assert_eq!(c.get_first_interrupt(), Some(InterruptFlags::Joypad));
    c.set_ie(0b0001_0100);
    assert_eq!(c.get_first_interrupt(), Some(InterruptFlags::Timer));
    assert_eq!(c.ie(), 0b0001_0100);
}

#[test]
fn interrupt_masks_and_vectors() {
    let all = [
        (InterruptFlags::VBlank, 0x01u8, 0x0040u16),
        (InterruptFlags::LCDStat, 0x02, 0x0048),
        (InterruptFlags::Timer, 0x04, 0x0050),
        (InterruptFlags::Serial, 0x08, 0x0058),
        (InterruptFlags::Joypad, 0x10, 0x0060),
    ];
    for (flag, mask, vector) in all {
        assert_eq!(flag.mask(), mask);
        assert_eq!(flag.vector(), vector);
        let mut c = InterruptController::new();
        c.set_interrupt_flag(flag);
        assert_eq!(c.iflag(), mask);
        c.set_iflag(0xFF);
        c.clear_interrupt_flag(flag);
        assert_eq!(c.iflag(), 0xFF & !mask);
    }
}

#[test]
fn master_latch_takes_effect_at_once() {
    let mut c = InterruptController::new();
    assert!(!c.ime());
    c.enable_master_interrupt();
    assert!(c.ime());
    c.disable_master_interrupt();
    assert!(!c.ime());
}

#[test]
fn plain_interrupt_registers() {
    let mut i = Interrupts::new();
    assert_eq!(i.get_interrupt_flag(), 0);
    assert_eq!(i.get_interrupt_enable(), 0);
    i.set_interrupt_flag(0x15);
    i.set_interrupt_enable(0x0A);
    assert_eq!(i.get_interrupt_flag(), 0x15);
    assert_eq!(i.get_interrupt_enable(), 0x0A);
}

#[test]
fn joypad_groups() {
    let mut j = Joypad::new();
    assert_eq!(j.joyp(), 0x0F);
    assert!(!j.joypad_interrupt_req);
    j.set_key_pressed(KeyValue::A);
    assert!(j.joypad_interrupt_req);
    assert_eq!(j.joyp(), 0x0E);
    j.set_key_pressed(KeyValue::Start);
    assert_eq!(j.joyp(), 0x06);
    j.set_key_pressed(KeyValue::Up);
    assert_eq!(j.joyp(), 0x06);
    j.set_joyp(0x20);
    assert_eq!(j.joyp(), 0x0B);
    j.set_key_pressed(KeyValue::Right);
    assert_eq!(j.joyp(), 0x0A);
    j.set_key_released(KeyValue::Up);
    assert_eq!(j.joyp(), 0x0E);
    j.set_key_released(KeyValue::Right);
    assert_eq!(j.joyp(), 0x0F);
    j.set_joyp(0x00);
    assert_eq!(j.joyp(), 0x0F);
}

#[test]
fn joypad_key_bits() {
    let keys = [
        (KeyValue::Down, true, 0x08u8),
        (KeyValue::Up, true, 0x04),
        (KeyValue::Left, true, 0x02),
        (KeyValue::Right, true, 0x01),
        (KeyValue::Start, false, 0x08),
        (KeyValue::Select, false, 0x04),
        (KeyValue::B, false, 0x02),
        (KeyValue::A, false, 0x01),
    ];
    for (key, direction, mask) in keys {
        assert_eq!(key.is_direction(), direction);
        assert_eq!(key.mask(), mask);
        let mut j = Joypad::new();
        j.set_key_pressed(key);
        if direction {
            assert_eq!(j.directions_pressed, 0x0F & !mask);
            assert_eq!(j.buttons_pressed, 0x0F);
        } else {
            assert_eq!(j.buttons_pressed, 0x0F & !mask);
            assert_eq!(j.directions_pressed, 0x0F);
        }
        j.set_key_released(key);
        assert_eq!(j.buttons_pressed, 0x0F);
        assert_eq!(j.directions_pressed, 0x0F);
    }
}

#[test]
fn link_cable_registers() {
    let mut l = LinkCable::new();
    assert_eq!((l.sb(), l.sc()), (0, 0));
    l.set_sb(0x42);
    l.set_sc(0x81);
    assert_eq!((l.sb(), l.sc()), (0x42, 0x81));
}

#[test]
fn timer_registers() {
    let mut t = Timer::new();
    assert_eq!(t.div(), 0);
    assert_eq!(t.tma(), 0);
    t.set_tma(0x77);
    assert_eq!(t.tma(), 0x77);
    t.update_timer(100);
    assert_eq!(t.div_cycles, 100);
    t.update_timer(155);
    assert_eq!(t.div_cycles, 255);
    t.update_timer(1);
    assert_eq!(t.div_cycles, 0);
    t.update_timer(65535);
    assert_eq!(t.div_cycles, 0);
    assert_eq!(t.div(), 0);
    t.set_div(0x55);
    assert_eq!(t.div(), 0);
}
