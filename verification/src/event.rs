//! What the windowing side reports, as plain values. A number that arrives
//! as a floating-point value is kept as its IEEE 754 bit pattern: the library
//! stores and hands on such numbers and never computes with them.

use vstd::prelude::*;

verus! {

/// The size of a surface in pixels.
#[derive(Clone, Copy, Debug, PartialEq, Eq, Structural)]
pub struct PhysicalSize {
    pub width: u32,
    pub height: u32,
}

impl PhysicalSize {
    /// One of the two dimensions is zero, so that the size covers no pixel.
    pub open spec fn spec_is_empty(self) -> bool {
        self.width == 0 || self.height == 0
    }

    /// A size of the given width and height.
    pub fn new(width: u32, height: u32) -> (size: PhysicalSize)
        ensures
            size == (PhysicalSize { width, height }),
    {
        PhysicalSize { width, height }
    }

    /// Whether one of the two dimensions is zero.
    pub fn is_empty(&self) -> (empty: bool)
        ensures
            empty == self.spec_is_empty(),
    {
        self.width == 0 || self.height == 0
    }
}

/// A position in pixels from the top left corner of the window. Each
/// coordinate is the bit pattern of a double-precision number.
#[derive(Clone, Copy, Debug, PartialEq, Eq, Structural)]
pub struct PhysicalPosition {
    pub x: u64,
    pub y: u64,
}

/// How far a wheel or touchpad scrolled.
#[derive(Clone, Copy, Debug, PartialEq, Eq, Structural)]
pub enum MouseScrollDelta {
    /// Lines or rows, horizontally and vertically, each the bit pattern of a
    /// single-precision number.
    LineDelta(u32, u32),
    /// Pixels, horizontally and vertically.
    PixelDelta(PhysicalPosition),
}

/// Whether a key went down or came up.
#[derive(Clone, Copy, Debug, PartialEq, Eq, Structural)]
pub enum ElementState {
    Pressed,
    Released,
}

/// The meaning of a key, as far as the host tells keys apart.
#[derive(Clone, Copy, Debug, PartialEq, Eq, Structural)]
pub enum VirtualKeyCode {
    Space,
    Escape,
    /// Any other key.
    Other,
}

/// A key going down or coming up.
#[derive(Clone, Copy, Debug, PartialEq, Eq)]
pub struct KeyboardInput {
    pub state: ElementState,
    /// The meaning of the key, where the platform knows one.
    pub virtual_keycode: Option<VirtualKeyCode>,
}

impl KeyboardInput {
    /// This is the given key going down.
    pub open spec fn spec_is_press_of(self, key: VirtualKeyCode) -> bool {
        self.state == ElementState::Pressed && self.virtual_keycode == Some(key)
    }

    /// Whether this is the given key going down.
    pub fn is_press_of(&self, key: VirtualKeyCode) -> (pressed: bool)
        ensures
            pressed == self.spec_is_press_of(key),
    {
        match (self.state, self.virtual_keycode) {
            (ElementState::Pressed, Some(code)) => code == key,
            _ => false,
        }
    }
}

/// An event of the host's window.
#[derive(Clone, Copy, Debug, PartialEq, Eq)]
pub enum WindowEvent {
    /// The user asked to close the window.
    CloseRequested,
    KeyboardInput { input: KeyboardInput },
    /// The pointer moved to `position`.
    CursorMoved { position: PhysicalPosition },
    MouseWheel { delta: MouseScrollDelta },
    /// The window now has this size.
    Resized(PhysicalSize),
    /// The scale factor changed, and with it the window's size.
    ScaleFactorChanged { new_inner_size: PhysicalSize },
    /// Any other event.
    Other,
}

/// An event of the host's event loop.
#[derive(Clone, Copy, Debug, PartialEq, Eq)]
pub enum Event {
    /// An event of a window, and whether that window is the host's.
    WindowEvent { event: WindowEvent, own_window: bool },
    /// The window's contents are to be drawn again.
    RedrawRequested,
    /// Every event that was waiting has been handled.
    MainEventsCleared,
    /// Any other event.
    Other,
}

} // verus!
