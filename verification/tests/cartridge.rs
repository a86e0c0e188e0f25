use ludus_libretro::engine::{
    image_is_complete, polled_buttons, starts_with_magic, ControllerState, JoypadButton,
    CHR_BANK_BYTES, PRG_BANK_BYTES, SAMPLE_RATE,
};

fn image(prg_banks: u8, chr_banks: u8, flag6: u8, len: usize) -> Vec<u8> {
    let mut bytes = vec![0x4E, 0x45, 0x53, 0x1A, prg_banks, chr_banks, flag6, 0];
    bytes.resize(len, 0);
    bytes
}

#[test]
fn engine_constants() {
    assert_eq!(SAMPLE_RATE, 24000);
    assert_eq!(PRG_BANK_BYTES, 16384);
    assert_eq!(CHR_BANK_BYTES, 8192);
}

#[test]
fn magic_is_four_exact_bytes() {
    assert!(starts_with_magic(&[0x4E, 0x45, 0x53, 0x1A]));
    assert!(starts_with_magic(&[0x4E, 0x45, 0x53, 0x1A, 9, 9]));
    assert!(!starts_with_magic(&[]));
    assert!(!starts_with_magic(&[0x4E, 0x45, 0x53]));
    assert!(!starts_with_magic(&[0x4E, 0x45, 0x53, 0x1B]));
    assert!(!starts_with_magic(&[0x4F, 0x45, 0x53, 0x1A]));
    assert!(!starts_with_magic(&[0x4E, 0x44, 0x53, 0x1A]));
    assert!(!starts_with_magic(&[0x4E, 0x45, 0x52, 0x1A]));
}

#[test]
fn image_needs_every_announced_bank() {
    assert!(image_is_complete(&image(1, 0, 0, 16 + 0x4000)));
    assert!(!image_is_complete(&image(1, 0, 0, 16 + 0x4000 - 1)));
    assert!(image_is_complete(&image(1, 0, 0, 16 + 0x4000 + 7)));
    assert!(image_is_complete(&image(2, 1, 0, 16 + 0x8000 + 0x2000)));
    assert!(!image_is_complete(&image(2, 1, 0, 16 + 0x8000 + 0x2000 - 1)));
    assert!(!image_is_complete(&image(1, 1, 0, 16 + 0x4000)));
}

#[test]
fn image_with_trainer_is_longer() {
    assert!(!image_is_complete(&image(1, 0, 0b100, 16 + 0x4000)));
    assert!(!image_is_complete(&image(1, 0, 0b100, 528 + 0x4000 - 1)));
    assert!(image_is_complete(&image(1, 0, 0b100, 528 + 0x4000)));
    assert!(image_is_complete(&image(1, 0, 0b1011, 16 + 0x4000)));
}

#[test]
fn image_needs_header_and_a_program_bank() {
    assert!(!image_is_complete(&[]));
    assert!(!image_is_complete(&[0x4E, 0x45, 0x53, 0x1A, 1, 0, 0]));
    assert!(!image_is_complete(&image(0, 0, 0, 16)));
    assert!(!image_is_complete(&image(0, 1, 0, 16 + 0x2000)));
    assert!(image_is_complete(&image(255, 255, 0b100, 528 + 255 * 0x4000 + 255 * 0x2000)));
    assert!(!image_is_complete(&image(255, 255, 0b100, 528 + 255 * 0x4000 + 255 * 0x2000 - 1)));
}

#[test]
fn buttons_are_polled_in_controller_order() {
    assert_eq!(
        polled_buttons(),
        [
            JoypadButton::A,
            JoypadButton::B,
            JoypadButton::Select,
            JoypadButton::Start,
            JoypadButton::Up,
            JoypadButton::Down,
            JoypadButton::Left,
            JoypadButton::Right,
        ]
    );
}

#[test]
fn controller_state_takes_answers_in_polling_order() {
    let state = ControllerState::from_pressed([true, false, false, true, false, true, false, false]);
    assert_eq!(
        state,
        ControllerState {
            a: true,
            b: false,
            select: false,
            start: true,
            up: false,
            down: true,
            left: false,
            right: false,
        }
    );
    for k in 0..8 {
        let mut pressed = [false; 8];
        pressed[k] = true;
        let s = ControllerState::from_pressed(pressed);
        let fields = [s.a, s.b, s.select, s.start, s.up, s.down, s.left, s.right];
        assert_eq!(fields, pressed);
    }
    let none = ControllerState::from_pressed([false; 8]);
    assert!(!(none.a || none.b || none.select || none.start || none.up || none.down || none.left || none.right));
}
