use vstd::prelude::*;

verus! {

/// Whether a key or button went down or came up.
#[derive(Clone, Copy, Debug, PartialEq, Eq, Structural)]
pub enum ElementState {
    Pressed,
    Released,
}

/// A button of the mouse.
#[derive(Clone, Copy, Debug, PartialEq, Eq, Structural)]
pub enum MouseButton {
    Left,
    Right,
    Middle,
    Other(u8),
}

/// A key by its meaning. The keys that the engine and its editor act on
/// have a name; every other key goes by its number.
#[derive(Clone, Copy, Debug, PartialEq, Eq, Structural)]
pub enum VirtualKeyCode {
    A,
    D,
    G,
    H,
    S,
    W,
    Escape,
    Other(u32),
}

/// How far the wheel of the mouse was turned, in lines or in pixels. The
/// numbers are bit patterns, of single precision for lines and of double
/// precision for pixels.
#[derive(Clone, Copy, Debug, PartialEq, Eq, Structural)]
pub enum MouseScrollDelta {
    LineDelta(u32, u32),
    PixelDelta(u64, u64),
}

/// Enum containing input events. Positions and amounts are the bit
/// patterns of double-precision numbers; the motion of the mouse is
/// narrowed to single precision.
#[allow(inconsistent_fields)]
#[derive(Clone, Copy, Debug, PartialEq, Eq, Structural)]
pub enum InputEvent {
    KeyboardInput { state: ElementState, keycode: VirtualKeyCode },
    CursorMoved { x: u64, y: u64 },
    MouseMotion { delta_x: u32, delta_y: u32 },
    MouseWheel(MouseScrollDelta),
    MouseInput { button: MouseButton, state: ElementState },
    Motion { axis: u32, value: u64 },
    Button { button: u32, state: ElementState },
}

} // verus!
