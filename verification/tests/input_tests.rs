use gamercade_runtime::buttons::{ButtonCode, Buttons};
use gamercade_runtime::input_context::{Axis, InputContext, MouseButton, StickSide, WheelDirection};
use gamercade_runtime::input_state::{AnalogStick, InputState, MouseState};

fn pressed_state(code: ButtonCode) -> InputState {
    let mut s = InputState::new();
    s.buttons = s.buttons.set_button_state(code, true);
    s
}

#[test]
fn new_allocates_zeroed_entries() {
    let ctx = InputContext::new(3);
    assert_eq!(ctx.input_entries.len(), 3);
    for e in ctx.input_entries.iter() {
        assert_eq!(e.current.buttons.bits, 0);
        assert_eq!(e.previous.bits, 0);
        assert_eq!(e.current_mouse, MouseState::new());
        assert_eq!(e.previous_mouse, MouseState::new());
    }
}

#[test]
fn button_bits_round_trip() {
    let mut b = Buttons { bits: 0 };
    b = b.set_button_state(ButtonCode::Start, true);
    b = b.set_button_state(ButtonCode::A, true);
    assert!(b.get_button_state(ButtonCode::Start));
    assert!(b.get_button_state(ButtonCode::A));
    assert!(!b.get_button_state(ButtonCode::B));
    assert_eq!(b.bits, (1 << 8) | 1);
    b = b.set_button_state(ButtonCode::A, false);
    assert!(!b.get_button_state(ButtonCode::A));
    assert!(b.get_button_state(ButtonCode::Start));
}

#[test]
fn invalid_player_id_sentinels() {
    let ctx = InputContext::new(2);
    for id in [-1i32, 2, 100, i32::MIN] {
        assert_eq!(ctx.button_pressed(id, ButtonCode::A), -1);
        assert_eq!(ctx.button_released(id, ButtonCode::B), -1);
        assert_eq!(ctx.button_held(id, ButtonCode::Up), -1);
        assert_eq!(ctx.analog_axis(id, StickSide::Left, Axis::X), i32::MIN);
        assert_eq!(ctx.trigger_value(id, StickSide::Right), -1);
        assert_eq!(ctx.mouse_button_pressed(id, MouseButton::Left), -1);
        assert_eq!(ctx.mouse_button_released(id, MouseButton::Right), -1);
        assert_eq!(ctx.mouse_button_held(id, MouseButton::Middle), -1);
        assert_eq!(ctx.mouse_axis_pos(id, Axis::X), -1);
        assert_eq!(ctx.mouse_axis_delta(id, Axis::Y), i32::MIN);
        assert_eq!(ctx.mouse_wheel(id, WheelDirection::Up), -1);
        assert_eq!(ctx.raw_input_state(id), (1u64 << 63) as i64);
        assert_eq!(ctx.raw_mouse_state(id), 1i64 << 44);
    }
}

#[test]
fn valid_player_id_answers_data() {
    let mut ctx = InputContext::new(2);
    ctx.input_entries[1].current = InputState {
        buttons: Buttons { bits: 0 }.set_button_state(ButtonCode::Down, true),
        left_stick: AnalogStick { x: -5, y: 7 },
        right_stick: AnalogStick { x: 9, y: -11 },
        left_trigger: 100,
        right_trigger: 27,
    };
    assert_eq!(ctx.button_held(1, ButtonCode::Down), 1);
    assert_eq!(ctx.button_held(1, ButtonCode::Up), 0);
    assert_eq!(ctx.button_held(0, ButtonCode::Down), 0);
    assert_eq!(ctx.analog_axis(1, StickSide::Left, Axis::X), -5);
    assert_eq!(ctx.analog_axis(1, StickSide::Left, Axis::Y), 7);
    assert_eq!(ctx.analog_axis(1, StickSide::Right, Axis::X), 9);
    assert_eq!(ctx.analog_axis(1, StickSide::Right, Axis::Y), -11);
    assert_eq!(ctx.trigger_value(1, StickSide::Left), 100);
    assert_eq!(ctx.trigger_value(1, StickSide::Right), 27);
}

#[test]
fn edge_detection_on_entries() {
    let mut ctx = InputContext::new(1);
    // Frame where the button just went down: previous low, current high.
    ctx.input_entries[0].current = pressed_state(ButtonCode::A);
    ctx.input_entries[0].previous = Buttons { bits: 0 };
    assert_eq!(ctx.button_pressed(0, ButtonCode::A), 1);
    assert_eq!(ctx.button_released(0, ButtonCode::A), 0);
    assert_eq!(ctx.button_held(0, ButtonCode::A), 1);
    // Frame where it just came up: previous high, current low.
    ctx.input_entries[0].previous = ctx.input_entries[0].current.buttons;
    ctx.input_entries[0].current = InputState::new();
    assert_eq!(ctx.button_pressed(0, ButtonCode::A), 0);
    assert_eq!(ctx.button_released(0, ButtonCode::A), 1);
    assert_eq!(ctx.button_held(0, ButtonCode::A), 0);
}

#[test]
fn mouse_accessors_follow_the_same_shape() {
    let mut ctx = InputContext::new(1);
    ctx.input_entries[0].current_mouse = MouseState {
        left_button: true,
        right_button: false,
        middle_button: false,
        x: 320,
        y: 200,
        delta_x: -3,
        delta_y: 4,
        wheel_up: true,
        wheel_down: false,
        wheel_left: false,
        wheel_right: false,
    };
    assert_eq!(ctx.mouse_button_pressed(0, MouseButton::Left), 1);
    assert_eq!(ctx.mouse_button_held(0, MouseButton::Left), 1);
    assert_eq!(ctx.mouse_button_released(0, MouseButton::Left), 0);
    assert_eq!(ctx.mouse_axis_pos(0, Axis::X), 320);
    assert_eq!(ctx.mouse_axis_pos(0, Axis::Y), 200);
    assert_eq!(ctx.mouse_axis_delta(0, Axis::X), -3);
    assert_eq!(ctx.mouse_axis_delta(0, Axis::Y), 4);
    assert_eq!(ctx.mouse_wheel(0, WheelDirection::Up), 1);
    assert_eq!(ctx.mouse_wheel(0, WheelDirection::Down), 0);
    ctx.input_entries[0].previous_mouse = ctx.input_entries[0].current_mouse;
    assert_eq!(ctx.mouse_button_pressed(0, MouseButton::Left), 0);
}

#[test]
fn input_state_pack_round_trip() {
    let s = InputState {
        buttons: Buttons { bits: 0b1010_0000_0000_0101 },
        left_stick: AnalogStick { x: -128, y: 127 },
        right_stick: AnalogStick { x: 1, y: -1 },
        left_trigger: 0,
        right_trigger: 127,
    };
    assert_eq!(InputState::unpack(s.pack()), s);
}

#[test]
fn raw_input_state_layout() {
    let mut ctx = InputContext::new(1);
    ctx.input_entries[0].current = InputState {
        buttons: Buttons { bits: 0x0003 },
        left_stick: AnalogStick { x: 2, y: 3 },
        right_stick: AnalogStick { x: 4, y: 5 },
        left_trigger: 6,
        right_trigger: 7,
    };
    let expected: u64 =
        0x0003 | (2u64 << 16) | (3u64 << 24) | (4u64 << 32) | (5u64 << 40) | (6u64 << 48)
            | (7u64 << 55);
    assert_eq!(ctx.raw_input_state(0), expected as i64);
}

#[test]
fn raw_mouse_state_layout() {
    let mut ctx = InputContext::new(1);
    ctx.input_entries[0].current_mouse = MouseState {
        left_button: true,
        right_button: false,
        middle_button: true,
        x: 100,
        y: 50,
        delta_x: 1,
        delta_y: 2,
        wheel_up: false,
        wheel_down: true,
        wheel_left: false,
        wheel_right: false,
    };
    let expected: u64 =
        1 | 4 | (100u64 << 4) | (50u64 << 14) | (1u64 << 24) | (2u64 << 32) | (1u64 << 41);
    assert_eq!(ctx.raw_mouse_state(0), expected as i64);
}
