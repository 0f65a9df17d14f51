//! Button state packed into one 16-bit word, one bit per button code,
//! with an explicit bit-offset table instead of raw reinterpretation.
use vstd::prelude::*;

verus! {

/// One of the sixteen console buttons. Its bit offset inside a
/// [`Buttons`] word is given by [`Buttons::spec_bit`].
#[derive(Clone, Copy, PartialEq, Eq, Structural, Debug)]
pub enum ButtonCode {
    A,
    B,
    C,
    D,
    Up,
    Down,
    Left,
    Right,
    Start,
    Select,
    LeftShoulder,
    RightShoulder,
    LeftStick,
    RightStick,
    LeftTrigger,
    RightTrigger,
}

/// The pressed/not-pressed state of all sixteen buttons of one player,
/// one bit per button, bit offsets 0 through 15 in the order of
/// [`ButtonCode`]'s variants.
#[derive(Clone, Copy, PartialEq, Eq, Structural, Debug)]
pub struct Buttons {
    pub bits: u16,
}

impl Buttons {
    /// Bit offset of a button inside the packed word.
    pub open spec fn spec_bit(code: ButtonCode) -> u16 {
        match code {
            ButtonCode::A => 0,
            ButtonCode::B => 1,
            ButtonCode::C => 2,
            ButtonCode::D => 3,
            ButtonCode::Up => 4,
            ButtonCode::Down => 5,
            ButtonCode::Left => 6,
            ButtonCode::Right => 7,
            ButtonCode::Start => 8,
            ButtonCode::Select => 9,
            ButtonCode::LeftShoulder => 10,
            ButtonCode::RightShoulder => 11,
            ButtonCode::LeftStick => 12,
            ButtonCode::RightStick => 13,
            ButtonCode::LeftTrigger => 14,
            ButtonCode::RightTrigger => 15,
        }
    }

    /// Whether a button is down in this word.
    pub open spec fn spec_get(self, code: ButtonCode) -> bool {
        (self.bits >> Buttons::spec_bit(code)) & 1 == 1
    }

    /// The word with no button down.
    pub fn none() -> (r: Buttons)
        ensures
            r.bits == 0,
            forall|c: ButtonCode| !r.spec_get(c),
    {
        let r = Buttons { bits: 0 };
        proof {
            assert forall|c: ButtonCode| !r.spec_get(c) by {
                let i = Buttons::spec_bit(c);
                assert((0u16 >> i) & 1 != 1) by (bit_vector);
            }
        }
        r
    }

    /// Bit offset of a button, as a run-time value.
    pub fn bit_index(code: ButtonCode) -> (i: u16)
        ensures
            i == Buttons::spec_bit(code),
            i < 16,
    {
        match code {
            ButtonCode::A => 0,
            ButtonCode::B => 1,
            ButtonCode::C => 2,
            ButtonCode::D => 3,
            ButtonCode::Up => 4,
            ButtonCode::Down => 5,
            ButtonCode::Left => 6,
            ButtonCode::Right => 7,
            ButtonCode::Start => 8,
            ButtonCode::Select => 9,
            ButtonCode::LeftShoulder => 10,
            ButtonCode::RightShoulder => 11,
            ButtonCode::LeftStick => 12,
            ButtonCode::RightStick => 13,
            ButtonCode::LeftTrigger => 14,
            ButtonCode::RightTrigger => 15,
        }
    }

    /// Whether a button is down.
    pub fn get_button_state(&self, code: ButtonCode) -> (r: bool)
        ensures
            r == self.spec_get(code),
    {
        let i = Buttons::bit_index(code);
        (self.bits >> i) & 1 == 1
    }

    /// The same word with one button forced down or up.
    pub fn set_button_state(self, code: ButtonCode, down: bool) -> (r: Buttons)
        ensures
            r.spec_get(code) == down,
            forall|c: ButtonCode| c != code ==> r.spec_get(c) == self.spec_get(c),
    {
        let i = Buttons::bit_index(code);
        let bits = if down {
            self.bits | (1u16 << i)
        } else {
            self.bits & !(1u16 << i)
        };
        let r = Buttons { bits };
        proof {
            let b = self.bits;
            assert(i < 16 ==> ((b | (1u16 << i)) >> i) & 1 == 1) by (bit_vector);
            assert(i < 16 ==> ((b & !(1u16 << i)) >> i) & 1 != 1) by (bit_vector);
            assert forall|c: ButtonCode| c != code implies r.spec_get(c) == self.spec_get(c) by {
                lemma_button_bits_distinct(c, code);
                let j = Buttons::spec_bit(c);
                assert(i < 16 && j < 16 && i != j ==> ((b | (1u16 << i)) >> j) & 1 == (b >> j)
                    & 1) by (bit_vector);
                assert(i < 16 && j < 16 && i != j ==> ((b & !(1u16 << i)) >> j) & 1 == (b >> j)
                    & 1) by (bit_vector);
            }
        }
        r
    }
}

/// Distinct button codes occupy distinct bit offsets.
pub proof fn lemma_button_bits_distinct(c1: ButtonCode, c2: ButtonCode)
    ensures
        c1 != c2 ==> Buttons::spec_bit(c1) != Buttons::spec_bit(c2),
{
}

} // verus!
