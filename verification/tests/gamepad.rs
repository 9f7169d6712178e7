use switch_bt_ws::gamepad::{button_flags, SwitchButton, STICK_NEUTRAL, WEB_BUTTON_COUNT};

fn released() -> Vec<bool> {
    vec![false; 18]
}

#[test]
fn no_buttons_pressed_gives_zero_flags() {
    let buttons = released();
    assert_eq!(button_flags(&buttons), 0);
}

#[test]
fn web_a_maps_to_switch_b() {
    let mut buttons = released();
    buttons[0] = true;
    assert_eq!(button_flags(&buttons), SwitchButton::B);
}

#[test]
fn dpad_up_mapping() {
    let mut buttons = released();
    buttons[12] = true;
    assert_eq!(button_flags(&buttons), SwitchButton::DPAD_UP);
}

#[test]
fn each_web_button_sets_its_own_switch_bit() {
    let expected = [
        SwitchButton::B,
        SwitchButton::A,
        SwitchButton::Y,
        SwitchButton::X,
        SwitchButton::L,
        SwitchButton::R,
        SwitchButton::ZL,
        SwitchButton::ZR,
        SwitchButton::MINUS,
        SwitchButton::PLUS,
        SwitchButton::LS,
        SwitchButton::RS,
        SwitchButton::DPAD_UP,
        SwitchButton::DPAD_DOWN,
        SwitchButton::DPAD_LEFT,
        SwitchButton::DPAD_RIGHT,
        SwitchButton::HOME,
        SwitchButton::SCREENSHOT,
    ];
    assert_eq!(expected.len(), WEB_BUTTON_COUNT);
    for (i, bit) in expected.iter().enumerate() {
        let mut buttons = released();
        buttons[i] = true;
        assert_eq!(button_flags(&buttons), *bit, "web button {i}");
    }
}

#[test]
fn all_buttons_pressed_give_the_mapped_mask() {
    let buttons = vec![true; 18];
    assert_eq!(button_flags(&buttons), 0x00CF_3FCF);
}

#[test]
fn buttons_beyond_the_mapped_ones_are_ignored() {
    let mut buttons = vec![false; 20];
    buttons[18] = true;
    buttons[19] = true;
    assert_eq!(button_flags(&buttons), 0);
}

#[test]
fn missing_buttons_count_as_released() {
    assert_eq!(button_flags(&[]), 0);
    assert_eq!(button_flags(&[false, true]), SwitchButton::A);
}

#[test]
fn face_and_shoulder_combination() {
    let mut buttons = released();
    buttons[1] = true;
    buttons[4] = true;
    buttons[7] = true;
    assert_eq!(button_flags(&buttons), SwitchButton::A | SwitchButton::L | SwitchButton::ZR);
}

#[test]
fn stick_neutral_is_2048() {
    assert_eq!(STICK_NEUTRAL, 2048);
}
