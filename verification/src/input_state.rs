//! Per-player input for one frame: buttons, analog sticks, triggers and
//! mouse, each with an explicit documented bit layout and a pack/unpack
//! pair in place of raw memory reinterpretation.
use vstd::prelude::*;

use crate::buttons::Buttons;

verus! {

/// Bit offset of the flag that marks a packed input word as the answer
/// to an out-of-range player id.
pub const INPUT_INVALID_BIT: u64 = 63;

/// Bit offset of the flag that marks a packed mouse word as the answer
/// to an out-of-range player id.
pub const MOUSE_INVALID_BIT: u64 = 44;

/// One analog stick: signed positions on both axes.
#[derive(Clone, Copy, PartialEq, Eq, Structural, Debug)]
pub struct AnalogStick {
    pub x: i8,
    pub y: i8,
}

/// The bit pattern of a signed byte, widened to a word.
pub open spec fn spec_i8_bits(v: i8) -> u64 {
    (#[verifier::truncate] (v as u8)) as u64
}

/// Everything one player feeds the console in one frame, besides the
/// mouse. Triggers range over `0 ..= 127`; a larger value loses its top
/// bit when packed.
///
/// Packed layout (bit offsets in the `u64` of [`InputState::pack`]):
///
/// | field         | bits    |
/// |---------------|---------|
/// | buttons       | 0..16   |
/// | left stick x  | 16..24  |
/// | left stick y  | 24..32  |
/// | right stick x | 32..40  |
/// | right stick y | 40..48  |
/// | left trigger  | 48..55  |
/// | right trigger | 55..62  |
/// | reserved (0)  | 62      |
/// | invalid flag  | 63      |
#[derive(Clone, Copy, PartialEq, Eq, Structural, Debug)]
pub struct InputState {
    pub buttons: Buttons,
    pub left_stick: AnalogStick,
    pub right_stick: AnalogStick,
    pub left_trigger: u8,
    pub right_trigger: u8,
}

impl InputState {
    /// Both triggers fit the seven bits the packed layout gives them.
    pub open spec fn wf(self) -> bool {
        self.left_trigger < 128 && self.right_trigger < 128
    }

    /// The packed form, fields at the offsets of the table above.
    pub open spec fn spec_pack(self) -> u64 {
        (self.buttons.bits as u64) | (spec_i8_bits(self.left_stick.x) << 16u64) | (spec_i8_bits(
            self.left_stick.y,
        ) << 24u64) | (spec_i8_bits(self.right_stick.x) << 32u64) | (spec_i8_bits(
            self.right_stick.y,
        ) << 40u64) | (((self.left_trigger & 0x7f) as u64) << 48u64) | (((self.right_trigger
            & 0x7f) as u64) << 55u64)
    }

    /// The state a packed word describes; bits 62 and 63 are ignored.
    pub open spec fn spec_unpack(raw: u64) -> InputState {
        InputState {
            buttons: Buttons { bits: (raw & 0xffff) as u16 },
            left_stick: AnalogStick {
                x: #[verifier::truncate] ((((raw >> 16u64) & 0xff) as u8) as i8),
                y: #[verifier::truncate] ((((raw >> 24u64) & 0xff) as u8) as i8),
            },
            right_stick: AnalogStick {
                x: #[verifier::truncate] ((((raw >> 32u64) & 0xff) as u8) as i8),
                y: #[verifier::truncate] ((((raw >> 40u64) & 0xff) as u8) as i8),
            },
            left_trigger: ((raw >> 48u64) & 0x7f) as u8,
            right_trigger: ((raw >> 55u64) & 0x7f) as u8,
        }
    }

    /// The zero state, as a specification value.
    pub open spec fn spec_new() -> InputState {
        InputState {
            buttons: Buttons { bits: 0 },
            left_stick: AnalogStick { x: 0, y: 0 },
            right_stick: AnalogStick { x: 0, y: 0 },
            left_trigger: 0,
            right_trigger: 0,
        }
    }

    /// The zero state: no button down, sticks centred, triggers released.
    pub fn new() -> (r: InputState)
        ensures
            r == InputState::spec_new(),
            r.wf(),
    {
        InputState {
            buttons: Buttons { bits: 0 },
            left_stick: AnalogStick { x: 0, y: 0 },
            right_stick: AnalogStick { x: 0, y: 0 },
            left_trigger: 0,
            right_trigger: 0,
        }
    }

    /// Packs the state into one word, by the table above.
    pub fn pack(&self) -> (r: u64)
        ensures
            r == self.spec_pack(),
    {
        (self.buttons.bits as u64) | (((self.left_stick.x as u8) as u64) << 16u64) | (((
        self.left_stick.y as u8) as u64) << 24u64) | (((self.right_stick.x as u8) as u64)
            << 32u64) | (((self.right_stick.y as u8) as u64) << 40u64) | (((self.left_trigger
            & 0x7f) as u64) << 48u64) | (((self.right_trigger & 0x7f) as u64) << 55u64)
    }

    /// Reads a packed word back into a state.
    pub fn unpack(raw: u64) -> (r: InputState)
        ensures
            r == InputState::spec_unpack(raw),
            r.wf(),
    {
        let r = InputState {
            buttons: Buttons { bits: (raw & 0xffff) as u16 },
            left_stick: AnalogStick {
                x: (((raw >> 16u64) & 0xff) as u8) as i8,
                y: (((raw >> 24u64) & 0xff) as u8) as i8,
            },
            right_stick: AnalogStick {
                x: (((raw >> 32u64) & 0xff) as u8) as i8,
                y: (((raw >> 40u64) & 0xff) as u8) as i8,
            },
            left_trigger: ((raw >> 48u64) & 0x7f) as u8,
            right_trigger: ((raw >> 55u64) & 0x7f) as u8,
        };
        proof {
            assert((((raw >> 48u64) & 0x7f) as u8) < 128) by (bit_vector);
            assert((((raw >> 55u64) & 0x7f) as u8) < 128) by (bit_vector);
        }
        r
    }
}

/// Unpacking a packed state gives the state back, field for field.
pub proof fn lemma_input_state_round_trip(s: InputState)
    requires
        s.wf(),
    ensures
        InputState::spec_unpack(s.spec_pack()) == s,
{
    let b = s.buttons.bits;
    let t1 = #[verifier::truncate] (s.left_stick.x as u8);
    let t2 = #[verifier::truncate] (s.left_stick.y as u8);
    let t3 = #[verifier::truncate] (s.right_stick.x as u8);
    let t4 = #[verifier::truncate] (s.right_stick.y as u8);
    let lt = s.left_trigger;
    let rt = s.right_trigger;
    let p = s.spec_pack();
    assert((p & 0xffff) as u16 == b && ((p >> 16u64) & 0xff) as u8 == t1 && ((p >> 24u64) & 0xff)
        as u8 == t2 && ((p >> 32u64) & 0xff) as u8 == t3 && ((p >> 40u64) & 0xff) as u8 == t4 && ((
    p >> 48u64) & 0x7f) as u8 == lt && ((p >> 55u64) & 0x7f) as u8 == rt) by (bit_vector)
        requires
            p == (b as u64) | ((t1 as u64) << 16u64) | ((t2 as u64) << 24u64) | ((t3 as u64)
                << 32u64) | ((t4 as u64) << 40u64) | (((lt & 0x7f) as u64) << 48u64) | (((rt
                & 0x7f) as u64) << 55u64),
            lt < 128,
            rt < 128,
    ;
    let x1 = s.left_stick.x;
    let y1 = s.left_stick.y;
    let x2 = s.right_stick.x;
    let y2 = s.right_stick.y;
    assert(#[verifier::truncate] (((#[verifier::truncate] (x1 as u8)) as i8)) == x1)
        by (bit_vector);
    assert(#[verifier::truncate] (((#[verifier::truncate] (y1 as u8)) as i8)) == y1)
        by (bit_vector);
    assert(#[verifier::truncate] (((#[verifier::truncate] (x2 as u8)) as i8)) == x2)
        by (bit_vector);
    assert(#[verifier::truncate] (((#[verifier::truncate] (y2 as u8)) as i8)) == y2)
        by (bit_vector);
}

/// The mouse state of one player for one frame. Positions range over
/// `0 ..= 1023`; a larger value loses its upper bits when packed.
///
/// Packed layout (bit offsets in the `u64` of [`MouseState::pack`]):
///
/// | field         | bits    |
/// |---------------|---------|
/// | left button   | 0       |
/// | right button  | 1       |
/// | middle button | 2       |
/// | reserved (0)  | 3       |
/// | x position    | 4..14   |
/// | y position    | 14..24  |
/// | x delta       | 24..32  |
/// | y delta       | 32..40  |
/// | wheel up      | 40      |
/// | wheel down    | 41      |
/// | wheel left    | 42      |
/// | wheel right   | 43      |
/// | invalid flag  | 44      |
#[derive(Clone, Copy, PartialEq, Eq, Structural, Debug)]
pub struct MouseState {
    pub left_button: bool,
    pub right_button: bool,
    pub middle_button: bool,
    pub x: u16,
    pub y: u16,
    pub delta_x: i8,
    pub delta_y: i8,
    pub wheel_up: bool,
    pub wheel_down: bool,
    pub wheel_left: bool,
    pub wheel_right: bool,
}

impl MouseState {
    /// Both positions fit the ten bits the packed layout gives them.
    pub open spec fn wf(self) -> bool {
        self.x < 1024 && self.y < 1024
    }

    /// The packed form, fields at the offsets of the table above.
    pub open spec fn spec_pack(self) -> u64 {
        (if self.left_button {
            1u64
        } else {
            0u64
        }) | (if self.right_button {
            2u64
        } else {
            0u64
        }) | (if self.middle_button {
            4u64
        } else {
            0u64
        }) | (((self.x & 0x3ff) as u64) << 4u64) | (((self.y & 0x3ff) as u64) << 14u64) | (
        spec_i8_bits(self.delta_x) << 24u64) | (spec_i8_bits(self.delta_y) << 32u64) | (if
        self.wheel_up {
            1u64 << 40u64
        } else {
            0u64
        }) | (if self.wheel_down {
            1u64 << 41u64
        } else {
            0u64
        }) | (if self.wheel_left {
            1u64 << 42u64
        } else {
            0u64
        }) | (if self.wheel_right {
            1u64 << 43u64
        } else {
            0u64
        })
    }

    /// The zero state, as a specification value.
    pub open spec fn spec_new() -> MouseState {
        MouseState {
            left_button: false,
            right_button: false,
            middle_button: false,
            x: 0,
            y: 0,
            delta_x: 0,
            delta_y: 0,
            wheel_up: false,
            wheel_down: false,
            wheel_left: false,
            wheel_right: false,
        }
    }

    /// The zero state: no button, the top-left corner, no motion.
    pub fn new() -> (r: MouseState)
        ensures
            r == MouseState::spec_new(),
            r.wf(),
    {
        MouseState {
            left_button: false,
            right_button: false,
            middle_button: false,
            x: 0,
            y: 0,
            delta_x: 0,
            delta_y: 0,
            wheel_up: false,
            wheel_down: false,
            wheel_left: false,
            wheel_right: false,
        }
    }

    /// Packs the state into one word, by the table above.
    pub fn pack(&self) -> (r: u64)
        ensures
            r == self.spec_pack(),
    {
        (if self.left_button {
            1u64
        } else {
            0u64
        }) | (if self.right_button {
            2u64
        } else {
            0u64
        }) | (if self.middle_button {
            4u64
        } else {
            0u64
        }) | (((self.x & 0x3ff) as u64) << 4u64) | (((self.y & 0x3ff) as u64) << 14u64) | (((
        self.delta_x as u8) as u64) << 24u64) | (((self.delta_y as u8) as u64) << 32u64) | (if
        self.wheel_up {
            1u64 << 40u64
        } else {
            0u64
        }) | (if self.wheel_down {
            1u64 << 41u64
        } else {
            0u64
        }) | (if self.wheel_left {
            1u64 << 42u64
        } else {
            0u64
        }) | (if self.wheel_right {
            1u64 << 43u64
        } else {
            0u64
        })
    }
}

} // verus!
