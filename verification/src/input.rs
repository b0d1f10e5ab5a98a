//! The per-frame input accumulator.
//!
//! Pointer state arriving from the window system's event stream — mouse
//! position, pressed buttons, wheel delta — is accumulated into one
//! explicit struct and consumed once per frame, instead of living as
//! ambient global state. Key presses are not accumulated: each one is
//! mapped to a numbered key slot for the overlay collaborator to consume
//! immediately, and the slot table lives here so the decision is verified
//! even though the delivery is not.

use vstd::prelude::*;

verus! {

/// A key the overlay's key map knows: each one has its own slot.
#[derive(Clone, Copy, PartialEq, Eq, Structural, Debug)]
pub enum Key {
    Tab,
    LeftArrow,
    RightArrow,
    UpArrow,
    DownArrow,
    PageUp,
    PageDown,
    Home,
    End,
    Delete,
    Backspace,
    Enter,
    Escape,
    A,
    C,
    V,
    X,
    Y,
    Z,
}

/// A modifier key, tracked as a flag rather than a slot.
#[derive(Clone, Copy, PartialEq, Eq, Structural, Debug)]
pub enum Modifier {
    Ctrl,
    Shift,
    Alt,
    Super,
}

/// A mouse button the accumulator tracks.
#[derive(Clone, Copy, PartialEq, Eq, Structural, Debug)]
pub enum MouseButton {
    Left,
    Right,
    Middle,
}

/// One input event, in the values the accumulator decides on; the shell
/// maps the window system's own event type onto these.
#[derive(Clone, Copy, PartialEq, Eq, Structural, Debug)]
pub enum InputEvent {
    /// The user asked to quit; processing this frame should stop.
    Quit,
    /// A key the key map knows went down or up.
    Keyboard { key: Key, pressed: bool },
    /// A modifier went down or up.
    ModifierChange { modifier: Modifier, pressed: bool },
    /// The pointer moved to an absolute position.
    MouseMotion { x: i32, y: i32 },
    ButtonDown { button: MouseButton },
    ButtonUp { button: MouseButton },
    /// A wheel tick; the latest value replaces the previous one.
    Wheel { amount: i32 },
    /// Text input arrived; it is forwarded elsewhere, nothing is stored.
    Text,
}

/// The slot number the overlay's key map assigns to `k`.
pub open spec fn spec_key_slot(k: Key) -> int {
    match k {
        Key::Tab => 0,
        Key::LeftArrow => 1,
        Key::RightArrow => 2,
        Key::UpArrow => 3,
        Key::DownArrow => 4,
        Key::PageUp => 5,
        Key::PageDown => 6,
        Key::Home => 7,
        Key::End => 8,
        Key::Delete => 9,
        Key::Backspace => 10,
        Key::Enter => 11,
        Key::Escape => 12,
        Key::A => 13,
        Key::C => 14,
        Key::V => 15,
        Key::X => 16,
        Key::Y => 17,
        Key::Z => 18,
    }
}

/// The slot number for `k` in the overlay's key map. Distinct keys get
/// distinct slots, all below 19.
pub fn key_slot(k: Key) -> (r: u8)
    ensures
        r == spec_key_slot(k),
        r < 19,
{
    match k {
        Key::Tab => 0,
        Key::LeftArrow => 1,
        Key::RightArrow => 2,
        Key::UpArrow => 3,
        Key::DownArrow => 4,
        Key::PageUp => 5,
        Key::PageDown => 6,
        Key::Home => 7,
        Key::End => 8,
        Key::Delete => 9,
        Key::Backspace => 10,
        Key::Enter => 11,
        Key::Escape => 12,
        Key::A => 13,
        Key::C => 14,
        Key::V => 15,
        Key::X => 16,
        Key::Y => 17,
        Key::Z => 18,
    }
}

/// No two keys share a slot: the key map never aliases.
pub proof fn lemma_key_slot_injective(a: Key, b: Key)
    requires
        spec_key_slot(a) == spec_key_slot(b),
    ensures
        a == b,
{
}

/// The pointer state one frame consumes: accumulated from events between
/// frames, snapshot and partially reset when the frame begins.
#[derive(Clone, Copy, PartialEq, Eq, Structural, Debug)]
pub struct InputState {
    pub mouse_x: i32,
    pub mouse_y: i32,
    pub left: bool,
    pub right: bool,
    pub middle: bool,
    /// The most recent wheel tick since the last frame; zero after a
    /// frame consumed it.
    pub wheel: i32,
}

/// The accumulator state after `s` absorbs `e`. `Quit`, keyboard,
/// modifier and text events leave the pointer state unchanged.
pub open spec fn spec_step(s: InputState, e: InputEvent) -> InputState {
    match e {
        InputEvent::MouseMotion { x, y } => InputState { mouse_x: x, mouse_y: y, ..s },
        InputEvent::ButtonDown { button } => match button {
            MouseButton::Left => InputState { left: true, ..s },
            MouseButton::Right => InputState { right: true, ..s },
            MouseButton::Middle => InputState { middle: true, ..s },
        },
        InputEvent::ButtonUp { button } => match button {
            MouseButton::Left => InputState { left: false, ..s },
            MouseButton::Right => InputState { right: false, ..s },
            MouseButton::Middle => InputState { middle: false, ..s },
        },
        InputEvent::Wheel { amount } => InputState { wheel: amount, ..s },
        _ => s,
    }
}

impl InputState {
    /// The state before any event: pointer at the origin, nothing
    /// pressed, no wheel movement.
    pub fn new() -> (r: InputState)
        ensures
            r.mouse_x == 0,
            r.mouse_y == 0,
            !r.left,
            !r.right,
            !r.middle,
            r.wheel == 0,
    {
        InputState { mouse_x: 0, mouse_y: 0, left: false, right: false, middle: false, wheel: 0 }
    }

    /// Absorb one event. Returns whether the loop stays active: false
    /// exactly on [`InputEvent::Quit`]. The new state is the pure
    /// transition [`spec_step`] of the old.
    pub fn apply_event(&mut self, e: &InputEvent) -> (active: bool)
        ensures
            *final(self) == spec_step(*old(self), *e),
            active == (*e !is Quit),
    {
        match e {
            InputEvent::Quit => false,
            InputEvent::MouseMotion { x, y } => {
                self.mouse_x = *x;
                self.mouse_y = *y;
                true
            },
            InputEvent::ButtonDown { button } => {
                match button {
                    MouseButton::Left => self.left = true,
                    MouseButton::Right => self.right = true,
                    MouseButton::Middle => self.middle = true,
                }
                true
            },
            InputEvent::ButtonUp { button } => {
                match button {
                    MouseButton::Left => self.left = false,
                    MouseButton::Right => self.right = false,
                    MouseButton::Middle => self.middle = false,
                }
                true
            },
            InputEvent::Wheel { amount } => {
                self.wheel = *amount;
                true
            },
            InputEvent::Keyboard { .. } => true,
            InputEvent::ModifierChange { .. } => true,
            InputEvent::Text => true,
        }
    }

    /// Hand the accumulated state to the frame that begins now, and reset
    /// what is consumed per frame: the wheel delta. Position and buttons
    /// persist until events change them.
    pub fn begin_frame_input(&mut self) -> (snapshot: InputState)
        ensures
            snapshot == *old(self),
            *final(self) == (InputState { wheel: 0, ..*old(self) }),
    {
        let snapshot = *self;
        self.wheel = 0;
        snapshot
    }
}

} // verus!
