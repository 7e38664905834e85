use nes_oxide::cpu::joypad::Buttons;
use nes_oxide::cpu::joypad::Joypad;

#[test]
fn buttons_are_reported_one_bit_at_a_time() {
    let mut joypad = Joypad::default();
    joypad.buttons.insert(Buttons::BUTTON_A | Buttons::START | Buttons::RIGHT);
    joypad.write(1);
    joypad.write(0);
    let bits: Vec<u8> = (0..8).map(|_| joypad.read()).collect();
    assert_eq!(bits, vec![1, 0, 0, 1, 0, 0, 0, 1]);
}

#[test]
fn reads_behind_the_eighth_button_return_one() {
    let mut joypad = Joypad::default();
    joypad.write(1);
    joypad.write(0);
    for _ in 0..8 {
        assert_eq!(joypad.read(), 0);
    }
    assert_eq!(joypad.read(), 1);
    assert_eq!(joypad.read(), 1);
}

#[test]
fn strobe_keeps_the_first_button() {
    let mut joypad = Joypad::default();
    joypad.buttons.insert(Buttons::BUTTON_A);
    joypad.write(1);
    assert_eq!(joypad.read(), 1);
    assert_eq!(joypad.read(), 1);
    joypad.buttons.remove(Buttons::BUTTON_A);
    assert_eq!(joypad.read(), 0);
}

#[test]
fn strobe_rewinds_the_read_out() {
    let mut joypad = Joypad::default();
    joypad.buttons.insert(Buttons::BUTTON_B);
    joypad.write(0);
    assert_eq!(joypad.read(), 0);
    assert_eq!(joypad.read(), 1);
    joypad.write(0x81);
    joypad.write(0x80);
    assert_eq!(joypad.read(), 0);
    assert_eq!(joypad.read(), 1);
}

#[test]
fn button_set_keeps_its_bits() {
    let mut buttons = Buttons::empty();
    assert_eq!(buttons.bits(), 0);
    buttons.insert(Buttons::UP | Buttons::LEFT);
    assert_eq!(buttons.bits(), 0x50);
    buttons.remove(Buttons::UP);
    assert_eq!(buttons.bits(), 0x40);
    buttons.insert(Buttons::SELECT | Buttons::DOWN);
    assert_eq!(buttons.bits(), 0x64);
}
