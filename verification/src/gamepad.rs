//! Web Gamepad API to Nintendo Switch Pro Controller mapping.
//!
//! Button bits of `button_flg` (btkeyLib):
//! Y=0 X=1 B=2 A=3 SR(right)=4 SL(right)=5 R=6 ZR=7 Minus=8 Plus=9 RS=10
//! LS=11 Home=12 Capture=13 Down=16 Up=17 Right=18 Left=19 SR(left)=20
//! SL(left)=21 L=22 ZL=23.
//!
//! Sticks are 12-bit unsigned values (0..=4095) whose neutral value is 2048.

use vstd::prelude::*;

verus! {

/// Bit masks of the Switch `button_flg` field.
pub struct SwitchButton;

impl SwitchButton {
    pub const Y: u32 = 0x0000_0001;
    pub const X: u32 = 0x0000_0002;
    pub const B: u32 = 0x0000_0004;
    pub const A: u32 = 0x0000_0008;
    pub const SR_RIGHT: u32 = 0x0000_0010;
    pub const SL_RIGHT: u32 = 0x0000_0020;
    pub const R: u32 = 0x0000_0040;
    pub const ZR: u32 = 0x0000_0080;
    pub const MINUS: u32 = 0x0000_0100;
    pub const PLUS: u32 = 0x0000_0200;
    pub const RS: u32 = 0x0000_0400;
    pub const LS: u32 = 0x0000_0800;
    pub const HOME: u32 = 0x0000_1000;
    pub const SCREENSHOT: u32 = 0x0000_2000;
    pub const DPAD_DOWN: u32 = 0x0001_0000;
    pub const DPAD_UP: u32 = 0x0002_0000;
    pub const DPAD_RIGHT: u32 = 0x0004_0000;
    pub const DPAD_LEFT: u32 = 0x0008_0000;
    pub const SR_LEFT: u32 = 0x0010_0000;
    pub const SL_LEFT: u32 = 0x0020_0000;
    pub const L: u32 = 0x0040_0000;
    pub const ZL: u32 = 0x0080_0000;
}

/// Number of standard Web Gamepad buttons that have a Switch counterpart.
pub const WEB_BUTTON_COUNT: usize = 18;

/// Neutral (centred) 12-bit stick value.
pub const STICK_NEUTRAL: u32 = 2048;

/// Largest 12-bit stick value.
pub const STICK_MAX: u32 = 4095;

/// Button `i` counts as pressed when it is present and pressed; buttons beyond
/// the end of the slice count as released.
pub open spec fn is_pressed(pressed: Seq<bool>, i: int) -> bool {
    0 <= i < pressed.len() && pressed[i]
}

/// The union of the Switch bits of the pressed buttons; the arguments are the
/// pressed states of the Web buttons with standard indices 0 to 17.
pub open spec fn flags_of_states(
    face_bottom: bool,
    face_right: bool,
    face_left: bool,
    face_top: bool,
    bumper_left: bool,
    bumper_right: bool,
    trigger_left: bool,
    trigger_right: bool,
    back: bool,
    start: bool,
    stick_left: bool,
    stick_right: bool,
    dpad_up: bool,
    dpad_down: bool,
    dpad_left: bool,
    dpad_right: bool,
    home: bool,
    capture: bool,
) -> u32 {
    (if face_bottom { SwitchButton::B } else { 0 })
        | (if face_right { SwitchButton::A } else { 0 })
        | (if face_left { SwitchButton::Y } else { 0 })
        | (if face_top { SwitchButton::X } else { 0 })
        | (if bumper_left { SwitchButton::L } else { 0 })
        | (if bumper_right { SwitchButton::R } else { 0 })
        | (if trigger_left { SwitchButton::ZL } else { 0 })
        | (if trigger_right { SwitchButton::ZR } else { 0 })
        | (if back { SwitchButton::MINUS } else { 0 })
        | (if start { SwitchButton::PLUS } else { 0 })
        | (if stick_left { SwitchButton::LS } else { 0 })
        | (if stick_right { SwitchButton::RS } else { 0 })
        | (if dpad_up { SwitchButton::DPAD_UP } else { 0 })
        | (if dpad_down { SwitchButton::DPAD_DOWN } else { 0 })
        | (if dpad_left { SwitchButton::DPAD_LEFT } else { 0 })
        | (if dpad_right { SwitchButton::DPAD_RIGHT } else { 0 })
        | (if home { SwitchButton::HOME } else { 0 })
        | (if capture { SwitchButton::SCREENSHOT } else { 0 })
}

/// The `button_flg` value for the given pressed states: the union of the bits
/// of all pressed buttons among the first eighteen.
pub open spec fn button_flags_of(pressed: Seq<bool>) -> u32 {
    flags_of_states(
        is_pressed(pressed, 0),
        is_pressed(pressed, 1),
        is_pressed(pressed, 2),
        is_pressed(pressed, 3),
        is_pressed(pressed, 4),
        is_pressed(pressed, 5),
        is_pressed(pressed, 6),
        is_pressed(pressed, 7),
        is_pressed(pressed, 8),
        is_pressed(pressed, 9),
        is_pressed(pressed, 10),
        is_pressed(pressed, 11),
        is_pressed(pressed, 12),
        is_pressed(pressed, 13),
        is_pressed(pressed, 14),
        is_pressed(pressed, 15),
        is_pressed(pressed, 16),
        is_pressed(pressed, 17),
    )
}

fn pressed_at(pressed: &[bool], i: usize) -> (p: bool)
    ensures
        p == is_pressed(pressed@, i as int),
{
    i < pressed.len() && pressed[i]
}

/// Converts the pressed states of the Web Gamepad buttons (standard indices)
/// into the Switch `button_flg` bit mask.
pub fn button_flags(pressed: &[bool]) -> (flags: u32)
    ensures
        flags == button_flags_of(pressed@),
{
    let face_bottom = pressed_at(pressed, 0);
    let face_right = pressed_at(pressed, 1);
    let face_left = pressed_at(pressed, 2);
    let face_top = pressed_at(pressed, 3);
    let bumper_left = pressed_at(pressed, 4);
    let bumper_right = pressed_at(pressed, 5);
    let trigger_left = pressed_at(pressed, 6);
    let trigger_right = pressed_at(pressed, 7);
    let back = pressed_at(pressed, 8);
    let start = pressed_at(pressed, 9);
    let stick_left = pressed_at(pressed, 10);
    let stick_right = pressed_at(pressed, 11);
    let dpad_up = pressed_at(pressed, 12);
    let dpad_down = pressed_at(pressed, 13);
    let dpad_left = pressed_at(pressed, 14);
    let dpad_right = pressed_at(pressed, 15);
    let home = pressed_at(pressed, 16);
    let capture = pressed_at(pressed, 17);
    let flags: u32 =
        (if face_bottom { SwitchButton::B } else { 0 })
        | (if face_right { SwitchButton::A } else { 0 })
        | (if face_left { SwitchButton::Y } else { 0 })
        | (if face_top { SwitchButton::X } else { 0 })
        | (if bumper_left { SwitchButton::L } else { 0 })
        | (if bumper_right { SwitchButton::R } else { 0 })
        | (if trigger_left { SwitchButton::ZL } else { 0 })
        | (if trigger_right { SwitchButton::ZR } else { 0 })
        | (if back { SwitchButton::MINUS } else { 0 })
        | (if start { SwitchButton::PLUS } else { 0 })
        | (if stick_left { SwitchButton::LS } else { 0 })
        | (if stick_right { SwitchButton::RS } else { 0 })
        | (if dpad_up { SwitchButton::DPAD_UP } else { 0 })
        | (if dpad_down { SwitchButton::DPAD_DOWN } else { 0 })
        | (if dpad_left { SwitchButton::DPAD_LEFT } else { 0 })
        | (if dpad_right { SwitchButton::DPAD_RIGHT } else { 0 })
        | (if home { SwitchButton::HOME } else { 0 })
        | (if capture { SwitchButton::SCREENSHOT } else { 0 });
    flags
}


/// Law: in the `button_flg` value of any combination of pressed states, the
/// bit of each of the eighteen mapped Web buttons is set exactly when that
/// button is pressed (Web A sets Switch B, Web B sets Switch A, and so on), and
/// no bit outside the mapped ones (`0x00CF_3FCF`) is ever set.
pub proof fn lemma_button_flags_exact(
    face_bottom: bool,
    face_right: bool,
    face_left: bool,
    face_top: bool,
    bumper_left: bool,
    bumper_right: bool,
    trigger_left: bool,
    trigger_right: bool,
    back: bool,
    start: bool,
    stick_left: bool,
    stick_right: bool,
    dpad_up: bool,
    dpad_down: bool,
    dpad_left: bool,
    dpad_right: bool,
    home: bool,
    capture: bool,
)
    by (bit_vector)
    ensures
        (flags_of_states(face_bottom, face_right, face_left, face_top, bumper_left, bumper_right, trigger_left, trigger_right, back, start, stick_left, stick_right, dpad_up, dpad_down, dpad_left, dpad_right, home, capture) & SwitchButton::B != 0) == face_bottom,
        (flags_of_states(face_bottom, face_right, face_left, face_top, bumper_left, bumper_right, trigger_left, trigger_right, back, start, stick_left, stick_right, dpad_up, dpad_down, dpad_left, dpad_right, home, capture) & SwitchButton::A != 0) == face_right,
        (flags_of_states(face_bottom, face_right, face_left, face_top, bumper_left, bumper_right, trigger_left, trigger_right, back, start, stick_left, stick_right, dpad_up, dpad_down, dpad_left, dpad_right, home, capture) & SwitchButton::Y != 0) == face_left,
        (flags_of_states(face_bottom, face_right, face_left, face_top, bumper_left, bumper_right, trigger_left, trigger_right, back, start, stick_left, stick_right, dpad_up, dpad_down, dpad_left, dpad_right, home, capture) & SwitchButton::X != 0) == face_top,
        (flags_of_states(face_bottom, face_right, face_left, face_top, bumper_left, bumper_right, trigger_left, trigger_right, back, start, stick_left, stick_right, dpad_up, dpad_down, dpad_left, dpad_right, home, capture) & SwitchButton::L != 0) == bumper_left,
        (flags_of_states(face_bottom, face_right, face_left, face_top, bumper_left, bumper_right, trigger_left, trigger_right, back, start, stick_left, stick_right, dpad_up, dpad_down, dpad_left, dpad_right, home, capture) & SwitchButton::R != 0) == bumper_right,
        (flags_of_states(face_bottom, face_right, face_left, face_top, bumper_left, bumper_right, trigger_left, trigger_right, back, start, stick_left, stick_right, dpad_up, dpad_down, dpad_left, dpad_right, home, capture) & SwitchButton::ZL != 0) == trigger_left,
        (flags_of_states(face_bottom, face_right, face_left, face_top, bumper_left, bumper_right, trigger_left, trigger_right, back, start, stick_left, stick_right, dpad_up, dpad_down, dpad_left, dpad_right, home, capture) & SwitchButton::ZR != 0) == trigger_right,
        (flags_of_states(face_bottom, face_right, face_left, face_top, bumper_left, bumper_right, trigger_left, trigger_right, back, start, stick_left, stick_right, dpad_up, dpad_down, dpad_left, dpad_right, home, capture) & SwitchButton::MINUS != 0) == back,
        (flags_of_states(face_bottom, face_right, face_left, face_top, bumper_left, bumper_right, trigger_left, trigger_right, back, start, stick_left, stick_right, dpad_up, dpad_down, dpad_left, dpad_right, home, capture) & SwitchButton::PLUS != 0) == start,
        (flags_of_states(face_bottom, face_right, face_left, face_top, bumper_left, bumper_right, trigger_left, trigger_right, back, start, stick_left, stick_right, dpad_up, dpad_down, dpad_left, dpad_right, home, capture) & SwitchButton::LS != 0) == stick_left,
        (flags_of_states(face_bottom, face_right, face_left, face_top, bumper_left, bumper_right, trigger_left, trigger_right, back, start, stick_left, stick_right, dpad_up, dpad_down, dpad_left, dpad_right, home, capture) & SwitchButton::RS != 0) == stick_right,
        (flags_of_states(face_bottom, face_right, face_left, face_top, bumper_left, bumper_right, trigger_left, trigger_right, back, start, stick_left, stick_right, dpad_up, dpad_down, dpad_left, dpad_right, home, capture) & SwitchButton::DPAD_UP != 0) == dpad_up,
        (flags_of_states(face_bottom, face_right, face_left, face_top, bumper_left, bumper_right, trigger_left, trigger_right, back, start, stick_left, stick_right, dpad_up, dpad_down, dpad_left, dpad_right, home, capture) & SwitchButton::DPAD_DOWN != 0) == dpad_down,
        (flags_of_states(face_bottom, face_right, face_left, face_top, bumper_left, bumper_right, trigger_left, trigger_right, back, start, stick_left, stick_right, dpad_up, dpad_down, dpad_left, dpad_right, home, capture) & SwitchButton::DPAD_LEFT != 0) == dpad_left,
        (flags_of_states(face_bottom, face_right, face_left, face_top, bumper_left, bumper_right, trigger_left, trigger_right, back, start, stick_left, stick_right, dpad_up, dpad_down, dpad_left, dpad_right, home, capture) & SwitchButton::DPAD_RIGHT != 0) == dpad_right,
        (flags_of_states(face_bottom, face_right, face_left, face_top, bumper_left, bumper_right, trigger_left, trigger_right, back, start, stick_left, stick_right, dpad_up, dpad_down, dpad_left, dpad_right, home, capture) & SwitchButton::HOME != 0) == home,
        (flags_of_states(face_bottom, face_right, face_left, face_top, bumper_left, bumper_right, trigger_left, trigger_right, back, start, stick_left, stick_right, dpad_up, dpad_down, dpad_left, dpad_right, home, capture) & SwitchButton::SCREENSHOT != 0) == capture,
        flags_of_states(face_bottom, face_right, face_left, face_top, bumper_left, bumper_right, trigger_left, trigger_right, back, start, stick_left, stick_right, dpad_up, dpad_down, dpad_left, dpad_right, home, capture) & !0x00CF_3FCFu32 == 0,
{
}

} // verus!
