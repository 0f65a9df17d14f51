//! Double-buffered per-player input and the capability accessors the
//! guest queries through the host bindings. Every accessor is total
//! over any `i32` player id: an out-of-range id answers a documented
//! sentinel, never an abort.
use vstd::prelude::*;

use crate::buttons::{ButtonCode, Buttons};
use crate::input_state::{AnalogStick, InputState, MouseState, INPUT_INVALID_BIT, MOUSE_INVALID_BIT};

verus! {

/// One player's double-buffered input: this frame's full state, last
/// frame's buttons (for edge detection), and both mouse generations.
#[derive(Clone, Copy, PartialEq, Eq, Structural, Debug)]
pub struct PlayerInputEntry {
    pub current: InputState,
    pub previous: Buttons,
    pub current_mouse: MouseState,
    pub previous_mouse: MouseState,
}

impl PlayerInputEntry {
    /// The zero entry, as a specification value.
    pub open spec fn spec_new() -> PlayerInputEntry {
        PlayerInputEntry {
            current: InputState::spec_new(),
            previous: Buttons { bits: 0 },
            current_mouse: MouseState::spec_new(),
            previous_mouse: MouseState::spec_new(),
        }
    }

    /// The zero entry a freshly built console starts from.
    pub fn new() -> (r: PlayerInputEntry)
        ensures
            r == PlayerInputEntry::spec_new(),
    {
        PlayerInputEntry {
            current: InputState::new(),
            previous: Buttons { bits: 0 },
            current_mouse: MouseState::new(),
            previous_mouse: MouseState::new(),
        }
    }
}

/// A button is "pressed" on the frame its bit rises: down now, up on
/// the frame before.
pub open spec fn spec_pressed(e: PlayerInputEntry, code: ButtonCode) -> bool {
    !e.previous.spec_get(code) && e.current.buttons.spec_get(code)
}

/// A button is "released" on the frame its bit falls: up now, down on
/// the frame before.
pub open spec fn spec_released(e: PlayerInputEntry, code: ButtonCode) -> bool {
    e.previous.spec_get(code) && !e.current.buttons.spec_get(code)
}

/// A button is "held" on any frame its bit is down.
pub open spec fn spec_held(e: PlayerInputEntry, code: ButtonCode) -> bool {
    e.current.buttons.spec_get(code)
}

/// A mouse button is "pressed" on the frame it goes down.
pub open spec fn spec_mouse_pressed(e: PlayerInputEntry, b: MouseButton) -> bool {
    !spec_mouse_down(e.previous_mouse, b) && spec_mouse_down(e.current_mouse, b)
}

/// A mouse button is "released" on the frame it comes up.
pub open spec fn spec_mouse_released(e: PlayerInputEntry, b: MouseButton) -> bool {
    spec_mouse_down(e.previous_mouse, b) && !spec_mouse_down(e.current_mouse, b)
}

/// Whether a mouse button is down in a mouse state.
pub open spec fn spec_mouse_down(m: MouseState, b: MouseButton) -> bool {
    match b {
        MouseButton::Left => m.left_button,
        MouseButton::Right => m.right_button,
        MouseButton::Middle => m.middle_button,
    }
}

/// Which analog stick an accessor reads.
#[derive(Clone, Copy, PartialEq, Eq, Structural, Debug)]
pub enum StickSide {
    Left,
    Right,
}

/// Which axis of a stick or of the mouse an accessor reads.
#[derive(Clone, Copy, PartialEq, Eq, Structural, Debug)]
pub enum Axis {
    X,
    Y,
}

/// Which mouse button an accessor reads.
#[derive(Clone, Copy, PartialEq, Eq, Structural, Debug)]
pub enum MouseButton {
    Left,
    Right,
    Middle,
}

/// Which way a wheel accessor asks about.
#[derive(Clone, Copy, PartialEq, Eq, Structural, Debug)]
pub enum WheelDirection {
    Up,
    Down,
    Left,
    Right,
}

/// The stick position an accessor answers for a valid player id.
pub open spec fn spec_stick_axis(s: InputState, side: StickSide, axis: Axis) -> i8 {
    let stick = match side {
        StickSide::Left => s.left_stick,
        StickSide::Right => s.right_stick,
    };
    match axis {
        Axis::X => stick.x,
        Axis::Y => stick.y,
    }
}

/// The trigger value an accessor answers for a valid player id.
pub open spec fn spec_trigger(s: InputState, side: StickSide) -> u8 {
    match side {
        StickSide::Left => s.left_trigger,
        StickSide::Right => s.right_trigger,
    }
}

/// The wheel flag an accessor answers for a valid player id.
pub open spec fn spec_wheel(m: MouseState, dir: WheelDirection) -> bool {
    match dir {
        WheelDirection::Up => m.wheel_up,
        WheelDirection::Down => m.wheel_down,
        WheelDirection::Left => m.wheel_left,
        WheelDirection::Right => m.wheel_right,
    }
}

/// The input of every player, one double-buffered entry each.
#[derive(Clone, Debug)]
pub struct InputContext {
    pub input_entries: Vec<PlayerInputEntry>,
}

impl InputContext {
    /// Whether a player id names one of the allocated entries.
    pub open spec fn spec_valid_player(self, player_id: i32) -> bool {
        0 <= player_id && (player_id as int) < self.input_entries@.len()
    }

    /// Allocates one zeroed entry per player.
    pub fn new(num_players: usize) -> (r: InputContext)
        ensures
            r.input_entries@.len() == num_players,
            forall|i: int|
                0 <= i < num_players ==> r.input_entries@[i] == PlayerInputEntry::spec_new(),
    {
        let mut input_entries: Vec<PlayerInputEntry> = Vec::new();
        let mut i: usize = 0;
        while i < num_players
            invariant
                i <= num_players,
                input_entries@.len() == i,
                forall|j: int| 0 <= j < i ==> input_entries@[j] == PlayerInputEntry::spec_new(),
            decreases num_players - i,
        {
            input_entries.push(PlayerInputEntry::new());
            i = i + 1;
        }
        InputContext { input_entries }
    }

    /// The entry of a player id already checked to be in range.
    fn entry(&self, player_id: i32) -> (r: &PlayerInputEntry)
        requires
            self.spec_valid_player(player_id),
        ensures
            *r == self.input_entries@[player_id as int],
    {
        &self.input_entries[player_id as usize]
    }

    /// `1` if the button rose this frame, `0` if not, `-1` for an
    /// out-of-range player id.
    pub fn button_pressed(&self, player_id: i32, button: ButtonCode) -> (r: i32)
        ensures
            !self.spec_valid_player(player_id) <==> r == -1,
            self.spec_valid_player(player_id) ==> r == if spec_pressed(
                self.input_entries@[player_id as int],
                button,
            ) {
                1int
            } else {
                0int
            },
    {
        if player_id < 0 || player_id as usize >= self.input_entries.len() {
            return -1;
        }
        let e = self.entry(player_id);
        let prev = e.previous.get_button_state(button);
        let curr = e.current.buttons.get_button_state(button);
        if !prev && curr {
            1
        } else {
            0
        }
    }

    /// `1` if the button fell this frame, `0` if not, `-1` for an
    /// out-of-range player id.
    pub fn button_released(&self, player_id: i32, button: ButtonCode) -> (r: i32)
        ensures
            !self.spec_valid_player(player_id) <==> r == -1,
            self.spec_valid_player(player_id) ==> r == if spec_released(
                self.input_entries@[player_id as int],
                button,
            ) {
                1int
            } else {
                0int
            },
    {
        if player_id < 0 || player_id as usize >= self.input_entries.len() {
            return -1;
        }
        let e = self.entry(player_id);
        let prev = e.previous.get_button_state(button);
        let curr = e.current.buttons.get_button_state(button);
        if prev && !curr {
            1
        } else {
            0
        }
    }

    /// `1` if the button is down this frame, `0` if not, `-1` for an
    /// out-of-range player id.
    pub fn button_held(&self, player_id: i32, button: ButtonCode) -> (r: i32)
        ensures
            !self.spec_valid_player(player_id) <==> r == -1,
            self.spec_valid_player(player_id) ==> r == if spec_held(
                self.input_entries@[player_id as int],
                button,
            ) {
                1int
            } else {
                0int
            },
    {
        if player_id < 0 || player_id as usize >= self.input_entries.len() {
            return -1;
        }
        let e = self.entry(player_id);
        if e.current.buttons.get_button_state(button) {
            1
        } else {
            0
        }
    }

    /// The signed stick position, or `i32::MIN` for an out-of-range
    /// player id (every stick value fits an `i8`, so the sentinel can
    /// never be confused with data).
    pub fn analog_axis(&self, player_id: i32, side: StickSide, axis: Axis) -> (r: i32)
        ensures
            !self.spec_valid_player(player_id) <==> r == i32::MIN,
            self.spec_valid_player(player_id) ==> r == spec_stick_axis(
                self.input_entries@[player_id as int].current,
                side,
                axis,
            ) as int,
    {
        if player_id < 0 || player_id as usize >= self.input_entries.len() {
            return i32::MIN;
        }
        let e = self.entry(player_id);
        let stick = match side {
            StickSide::Left => e.current.left_stick,
            StickSide::Right => e.current.right_stick,
        };
        (match axis {
            Axis::X => stick.x,
            Axis::Y => stick.y,
        }) as i32
    }

    /// The trigger value (`0 ..= 255`), or `-1` for an out-of-range
    /// player id.
    pub fn trigger_value(&self, player_id: i32, side: StickSide) -> (r: i32)
        ensures
            !self.spec_valid_player(player_id) <==> r == -1,
            self.spec_valid_player(player_id) ==> r == spec_trigger(
                self.input_entries@[player_id as int].current,
                side,
            ) as int,
    {
        if player_id < 0 || player_id as usize >= self.input_entries.len() {
            return -1;
        }
        let e = self.entry(player_id);
        (match side {
            StickSide::Left => e.current.left_trigger,
            StickSide::Right => e.current.right_trigger,
        }) as i32
    }

    /// `1` if the mouse button went down this frame, `0` if not, `-1`
    /// for an out-of-range player id.
    pub fn mouse_button_pressed(&self, player_id: i32, button: MouseButton) -> (r: i32)
        ensures
            !self.spec_valid_player(player_id) <==> r == -1,
            self.spec_valid_player(player_id) ==> r == if spec_mouse_pressed(
                self.input_entries@[player_id as int],
                button,
            ) {
                1int
            } else {
                0int
            },
    {
        if player_id < 0 || player_id as usize >= self.input_entries.len() {
            return -1;
        }
        let e = self.entry(player_id);
        let prev = Self::mouse_down(&e.previous_mouse, button);
        let curr = Self::mouse_down(&e.current_mouse, button);
        if !prev && curr {
            1
        } else {
            0
        }
    }

    /// `1` if the mouse button came up this frame, `0` if not, `-1`
    /// for an out-of-range player id.
    pub fn mouse_button_released(&self, player_id: i32, button: MouseButton) -> (r: i32)
        ensures
            !self.spec_valid_player(player_id) <==> r == -1,
            self.spec_valid_player(player_id) ==> r == if spec_mouse_released(
                self.input_entries@[player_id as int],
                button,
            ) {
                1int
            } else {
                0int
            },
    {
        if player_id < 0 || player_id as usize >= self.input_entries.len() {
            return -1;
        }
        let e = self.entry(player_id);
        let prev = Self::mouse_down(&e.previous_mouse, button);
        let curr = Self::mouse_down(&e.current_mouse, button);
        if prev && !curr {
            1
        } else {
            0
        }
    }

    /// `1` if the mouse button is down this frame, `0` if not, `-1`
    /// for an out-of-range player id.
    pub fn mouse_button_held(&self, player_id: i32, button: MouseButton) -> (r: i32)
        ensures
            !self.spec_valid_player(player_id) <==> r == -1,
            self.spec_valid_player(player_id) ==> r == if spec_mouse_down(
                self.input_entries@[player_id as int].current_mouse,
                button,
            ) {
                1int
            } else {
                0int
            },
    {
        if player_id < 0 || player_id as usize >= self.input_entries.len() {
            return -1;
        }
        let e = self.entry(player_id);
        if Self::mouse_down(&e.current_mouse, button) {
            1
        } else {
            0
        }
    }

    /// The mouse position on an axis (`0 ..= 1023`), or `-1` for an
    /// out-of-range player id.
    pub fn mouse_axis_pos(&self, player_id: i32, axis: Axis) -> (r: i32)
        ensures
            !self.spec_valid_player(player_id) <==> r == -1,
            self.spec_valid_player(player_id) ==> r == (match axis {
                Axis::X => self.input_entries@[player_id as int].current_mouse.x,
                Axis::Y => self.input_entries@[player_id as int].current_mouse.y,
            }) as int,
    {
        if player_id < 0 || player_id as usize >= self.input_entries.len() {
            return -1;
        }
        let e = self.entry(player_id);
        (match axis {
            Axis::X => e.current_mouse.x,
            Axis::Y => e.current_mouse.y,
        }) as i32
    }

    /// The signed mouse motion on an axis, or `i32::MIN` for an
    /// out-of-range player id (deltas fit an `i8`, so the sentinel can
    /// never be confused with data).
    pub fn mouse_axis_delta(&self, player_id: i32, axis: Axis) -> (r: i32)
        ensures
            !self.spec_valid_player(player_id) <==> r == i32::MIN,
            self.spec_valid_player(player_id) ==> r == (match axis {
                Axis::X => self.input_entries@[player_id as int].current_mouse.delta_x,
                Axis::Y => self.input_entries@[player_id as int].current_mouse.delta_y,
            }) as int,
    {
        if player_id < 0 || player_id as usize >= self.input_entries.len() {
            return i32::MIN;
        }
        let e = self.entry(player_id);
        (match axis {
            Axis::X => e.current_mouse.delta_x,
            Axis::Y => e.current_mouse.delta_y,
        }) as i32
    }

    /// `1` if the wheel moved that way this frame, `0` if not, `-1`
    /// for an out-of-range player id.
    pub fn mouse_wheel(&self, player_id: i32, dir: WheelDirection) -> (r: i32)
        ensures
            !self.spec_valid_player(player_id) <==> r == -1,
            self.spec_valid_player(player_id) ==> r == if spec_wheel(
                self.input_entries@[player_id as int].current_mouse,
                dir,
            ) {
                1int
            } else {
                0int
            },
    {
        if player_id < 0 || player_id as usize >= self.input_entries.len() {
            return -1;
        }
        let e = self.entry(player_id);
        let moved = match dir {
            WheelDirection::Up => e.current_mouse.wheel_up,
            WheelDirection::Down => e.current_mouse.wheel_down,
            WheelDirection::Left => e.current_mouse.wheel_left,
            WheelDirection::Right => e.current_mouse.wheel_right,
        };
        if moved {
            1
        } else {
            0
        }
    }

    /// The whole current input state of a player as one packed word,
    /// or a word with only the invalid flag set for an out-of-range
    /// player id.
    pub fn raw_input_state(&self, player_id: i32) -> (r: i64)
        ensures
            !self.spec_valid_player(player_id) ==> r == (1u64 << INPUT_INVALID_BIT) as i64,
            self.spec_valid_player(player_id) ==> r == self.input_entries@[player_id as int].current.spec_pack() as i64,
    {
        if player_id < 0 || player_id as usize >= self.input_entries.len() {
            return (1u64 << INPUT_INVALID_BIT) as i64;
        }
        let e = self.entry(player_id);
        e.current.pack() as i64
    }

    /// The whole current mouse state of a player as one packed word,
    /// or a word with only the invalid flag set for an out-of-range
    /// player id.
    pub fn raw_mouse_state(&self, player_id: i32) -> (r: i64)
        ensures
            !self.spec_valid_player(player_id) ==> r == (1u64 << MOUSE_INVALID_BIT) as i64,
            self.spec_valid_player(player_id) ==> r == self.input_entries@[player_id as int].current_mouse.spec_pack() as i64,
    {
        if player_id < 0 || player_id as usize >= self.input_entries.len() {
            return (1u64 << MOUSE_INVALID_BIT) as i64;
        }
        let e = self.entry(player_id);
        e.current_mouse.pack() as i64
    }

    /// Whether a mouse button is down, as run-time code.
    fn mouse_down(m: &MouseState, b: MouseButton) -> (r: bool)
        ensures
            r == spec_mouse_down(*m, b),
    {
        match b {
            MouseButton::Left => m.left_button,
            MouseButton::Right => m.right_button,
            MouseButton::Middle => m.middle_button,
        }
    }
}

/// A player's entry as the guest sees it while `update` runs in the
/// frame that supplied `input`: the new state is current, the previous
/// buttons still belong to the frame before.
pub open spec fn spec_entry_during_update(e: PlayerInputEntry, input: InputState) -> PlayerInputEntry {
    PlayerInputEntry { current: input, ..e }
}

/// A player's entry once that frame's advance has finished: after
/// `update` returns, the current buttons roll into the previous slot.
pub open spec fn spec_entry_after_advance(e: PlayerInputEntry, input: InputState) -> PlayerInputEntry {
    PlayerInputEntry { current: input, previous: input.buttons, ..e }
}

/// Edge detection over a scripted low-high-low button sequence across
/// three consecutive advances: "pressed" fires exactly once, on the
/// rising frame; "released" fires exactly once, on the falling frame;
/// "held" is true exactly on the middle frame.
pub proof fn lemma_edge_detection(
    e0: PlayerInputEntry,
    s1: InputState,
    s2: InputState,
    s3: InputState,
    b: ButtonCode,
)
    requires
        !e0.previous.spec_get(b),
        !s1.buttons.spec_get(b),
        s2.buttons.spec_get(b),
        !s3.buttons.spec_get(b),
    ensures
        ({
            let f1 = spec_entry_during_update(e0, s1);
            let f2 = spec_entry_during_update(spec_entry_after_advance(e0, s1), s2);
            let f3 = spec_entry_during_update(
                spec_entry_after_advance(spec_entry_after_advance(e0, s1), s2),
                s3,
            );
            &&& spec_pressed(f2, b)
            &&& !spec_pressed(f1, b)
            &&& !spec_pressed(f3, b)
            &&& spec_released(f3, b)
            &&& !spec_released(f1, b)
            &&& !spec_released(f2, b)
            &&& spec_held(f2, b)
            &&& !spec_held(f1, b)
            &&& !spec_held(f3, b)
        }),
{
}

} // verus!
