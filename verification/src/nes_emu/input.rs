//! The joypad byte from the pressed buttons of the keyboard and of the
//! first gamepad: bit 0 A, 1 B, 2 Select, 3 Start, 4 Up, 5 Down, 6 Left,
//! 7 Right.
use vstd::prelude::*;

verus! {

/// Which NES buttons an input device holds down.
#[derive(Debug, Clone, Copy, PartialEq, Eq, Structural)]
pub struct Buttons {
    pub a: bool,
    pub b: bool,
    pub select: bool,
    pub start: bool,
    pub up: bool,
    pub down: bool,
    pub left: bool,
    pub right: bool,
}

/// Whether bit `bit` of the joypad byte is the button `b` holds down.
pub open spec fn button_bit(b: Buttons, bit: int) -> bool {
    if bit == 0 {
        b.a
    } else if bit == 1 {
        b.b
    } else if bit == 2 {
        b.select
    } else if bit == 3 {
        b.start
    } else if bit == 4 {
        b.up
    } else if bit == 5 {
        b.down
    } else if bit == 6 {
        b.left
    } else {
        b.right
    }
}

/// The joypad byte: a button counts as pressed when the keyboard or the
/// gamepad (when there is one) holds it down.
pub fn joypad_byte(keyboard: Buttons, gamepad: Option<Buttons>) -> (r: u8)
    ensures
        forall|bit: int|
            0 <= bit < 8 ==> ((r >> bit as u8) & 1 == 1) == (button_bit(keyboard, bit) || (gamepad matches Some(g)
                && button_bit(g, bit))),
{
    let pad = match gamepad {
        Some(g) => g,
        None => Buttons {
            a: false,
            b: false,
            select: false,
            start: false,
            up: false,
            down: false,
            left: false,
            right: false,
        },
    };
    let b0: u8 = if keyboard.a || pad.a { 1 } else { 0 };
    let b1: u8 = if keyboard.b || pad.b { 1 } else { 0 };
    let b2: u8 = if keyboard.select || pad.select { 1 } else { 0 };
    let b3: u8 = if keyboard.start || pad.start { 1 } else { 0 };
    let b4: u8 = if keyboard.up || pad.up { 1 } else { 0 };
    let b5: u8 = if keyboard.down || pad.down { 1 } else { 0 };
    let b6: u8 = if keyboard.left || pad.left { 1 } else { 0 };
    let b7: u8 = if keyboard.right || pad.right { 1 } else { 0 };
    let r: u8 = b0 | (b1 << 1u8) | (b2 << 2u8) | (b3 << 3u8) | (b4 << 4u8) | (b5 << 5u8) | (b6 << 6u8) | (b7 << 7u8);
    assert(forall|bit: u8|
        bit < 8 ==> ((r >> bit) & 1 == 1) == (if bit == 0 {
            b0 == 1
        } else if bit == 1 {
            b1 == 1
        } else if bit == 2 {
            b2 == 1
        } else if bit == 3 {
            b3 == 1
        } else if bit == 4 {
            b4 == 1
        } else if bit == 5 {
            b5 == 1
        } else if bit == 6 {
            b6 == 1
        } else {
            b7 == 1
        })) by (bit_vector)
        requires
            b0 <= 1 && b1 <= 1 && b2 <= 1 && b3 <= 1 && b4 <= 1 && b5 <= 1 && b6 <= 1 && b7 <= 1,
            r == b0 | (b1 << 1u8) | (b2 << 2u8) | (b3 << 3u8) | (b4 << 4u8) | (b5 << 5u8) | (b6 << 6u8) | (b7 << 7u8),
    ;
    proof {
        assert forall|bit: int| 0 <= bit < 8 implies ((r >> bit as u8) & 1 == 1) == (button_bit(keyboard, bit) || (
        gamepad matches Some(g) && button_bit(g, bit))) by {
            let k = bit as u8;
            assert(k < 8);
        }
    }
    r
}

} // verus!
