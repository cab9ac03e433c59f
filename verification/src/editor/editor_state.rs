use vstd::prelude::*;
use crate::input::input_event::{ElementState, InputEvent, MouseButton, VirtualKeyCode};
use crate::scalar::ZERO_BITS;

verus! {

/// What the editor shows: whether the game runs, and the text of the
/// three boxes for the position of the light.
#[derive(Clone, Debug, PartialEq, Eq)]
pub struct EditorState {
    pub run_game: bool,
    pub x_light_text_box_content: String,
    pub y_light_text_box_content: String,
    pub z_light_text_box_content: String,
}

/// Text of a box for the position of the light before anything is known
/// of the light.
pub open spec fn spec_initial_content() -> Seq<char> {
    "0.0"@
}

impl EditorState {
    /// Whether this is the state of an editor that was just opened: the
    /// game stands still, and each box reads `0.0`.
    pub open spec fn spec_is_new(&self) -> bool {
        &&& !self.run_game
        &&& self.x_light_text_box_content@ == spec_initial_content()
        &&& self.y_light_text_box_content@ == spec_initial_content()
        &&& self.z_light_text_box_content@ == spec_initial_content()
    }

    /// The state of an editor that was just opened: the game stands
    /// still, and each box reads `0.0`.
    pub fn new() -> (state: EditorState)
        ensures
            state.spec_is_new(),
    {
        EditorState {
            run_game: false,
            x_light_text_box_content: "0.0".to_owned(),
            y_light_text_box_content: "0.0".to_owned(),
            z_light_text_box_content: "0.0".to_owned(),
        }
    }
}

/// Bit pattern of `5.0`, the speed of the editor's camera.
pub const CAMERA_SPEED_BITS: u32 = 0x40a0_0000;

/// Bit pattern of `0.2`, as near as single precision comes to it: how far
/// the editor's camera turns for a motion of the mouse.
pub const MOUSE_SENSITIVITY_BITS: u32 = 0x3e4c_cccd;

/// What the editor knows of keys and mouse, to move its camera by.
#[derive(Clone, Copy, Debug, PartialEq, Eq, Structural)]
pub struct EditorInputState {
    pub mouse_delta_changed: bool,
    pub right_mouse_button_pressed: bool,
    pub camera_speed: u32,
    pub mouse_sensitivity: u32,
    pub mouse_delta_x: u32,
    pub mouse_delta_y: u32,
    pub up: bool,
    pub down: bool,
    pub left: bool,
    pub right: bool,
}

impl EditorInputState {
    /// Nothing is held down and the mouse has not moved.
    pub open spec fn spec_new() -> EditorInputState {
        EditorInputState {
            mouse_delta_changed: false,
            right_mouse_button_pressed: false,
            camera_speed: CAMERA_SPEED_BITS,
            mouse_sensitivity: MOUSE_SENSITIVITY_BITS,
            mouse_delta_x: ZERO_BITS,
            mouse_delta_y: ZERO_BITS,
            up: false,
            down: false,
            left: false,
            right: false,
        }
    }

    /// Nothing is held down and the mouse has not moved.
    pub fn new() -> (state: EditorInputState)
        ensures
            state == Self::spec_new(),
    {
        EditorInputState {
            mouse_delta_changed: false,
            right_mouse_button_pressed: false,
            camera_speed: CAMERA_SPEED_BITS,
            mouse_sensitivity: MOUSE_SENSITIVITY_BITS,
            mouse_delta_x: ZERO_BITS,
            mouse_delta_y: ZERO_BITS,
            up: false,
            down: false,
            left: false,
            right: false,
        }
    }

    /// The state after one event: W, S, A and D hold the camera's ways up,
    /// down, left and right while they are down, the right button of the
    /// mouse is held or not, and a motion of the mouse is taken note of.
    pub open spec fn spec_after_event(self, event: InputEvent) -> EditorInputState {
        match event {
            InputEvent::KeyboardInput { state, keycode } => {
                let pressed = state is Pressed;
                match keycode {
                    VirtualKeyCode::W => EditorInputState { up: pressed, ..self },
                    VirtualKeyCode::S => EditorInputState { down: pressed, ..self },
                    VirtualKeyCode::A => EditorInputState { left: pressed, ..self },
                    VirtualKeyCode::D => EditorInputState { right: pressed, ..self },
                    _ => self,
                }
            },
            InputEvent::MouseInput { button, state } => match button {
                MouseButton::Right => EditorInputState {
                    right_mouse_button_pressed: state is Pressed,
                    ..self
                },
                _ => self,
            },
            InputEvent::MouseMotion { delta_x, delta_y } => EditorInputState {
                mouse_delta_changed: true,
                mouse_delta_x: delta_x,
                mouse_delta_y: delta_y,
                ..self
            },
            _ => self,
        }
    }

    /// The state after a row of events.
    pub open spec fn spec_after_events(self, events: Seq<InputEvent>) -> EditorInputState
        decreases events.len(),
    {
        if events.len() == 0 {
            self
        } else {
            self.spec_after_events(events.drop_last()).spec_after_event(events.last())
        }
    }

    /// Takes note of one event.
    pub fn handle_event(&mut self, event: InputEvent)
        ensures
            *final(self) == old(self).spec_after_event(event),
    {
        match event {
            InputEvent::KeyboardInput { state, keycode } => {
                let pressed = match state {
                    ElementState::Pressed => true,
                    ElementState::Released => false,
                };
                match keycode {
                    VirtualKeyCode::W => {
                        self.up = pressed;
                    },
                    VirtualKeyCode::S => {
                        self.down = pressed;
                    },
                    VirtualKeyCode::A => {
                        self.left = pressed;
                    },
                    VirtualKeyCode::D => {
                        self.right = pressed;
                    },
                    _ => {},
                }
            },
            InputEvent::MouseInput { button, state } => {
                match button {
                    MouseButton::Right => {
                        self.right_mouse_button_pressed = match state {
                            ElementState::Pressed => true,
                            ElementState::Released => false,
                        };
                    },
                    _ => {},
                }
            },
            InputEvent::MouseMotion { delta_x, delta_y } => {
                self.mouse_delta_changed = true;
                self.mouse_delta_x = delta_x;
                self.mouse_delta_y = delta_y;
            },
            _ => {},
        }
    }

    /// Takes note of the events, in their order.
    pub fn handle_camera_input(&mut self, input_events: &Vec<InputEvent>)
        ensures
            *final(self) == old(self).spec_after_events(input_events@),
    {
        let mut i: usize = 0;
        assert(input_events@.subrange(0, 0) =~= Seq::<InputEvent>::empty());
        while i < input_events.len()
            invariant
                0 <= i <= input_events.len(),
                *self == old(self).spec_after_events(input_events@.subrange(0, i as int)),
            decreases input_events.len() - i,
        {
            assert(input_events@.subrange(0, i + 1).drop_last() =~= input_events@.subrange(
                0,
                i as int,
            ));
            self.handle_event(input_events[i]);
            i += 1;
        }
        assert(input_events@.subrange(0, i as int) =~= input_events@);
    }
}

} // verus!
