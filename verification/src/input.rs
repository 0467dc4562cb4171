//! Pointer and canvas state, with the sign-encoded press origin.
//!
//! The four mouse components are one vec4-shaped tuple for the shader:
//! `(mouse_x, mouse_y, press_x, press_y)`. The press-origin pair carries the
//! pressed flag in its sign: non-negative while the pointer is down, negated
//! the instant it is released, so no extra boolean uniform is needed.
//!
//! The encoding is ambiguous when a coordinate is itself zero or negative
//! (sign cannot tell "pressed at 0" from "released at 0"); that ambiguity is
//! part of the protocol and is deliberately not papered over here. The
//! initial all-zero state reads as "pressed at (0, 0)" under it.
//!
//! Coordinates arrive as `i32` pixels and are stored widened to `i64`, so
//! that negating the release position can never wrap.

use vstd::prelude::*;

verus! {

/// Current pointer position, sign-encoded press origin, and canvas size.
pub struct InputState {
    pub mouse_x: i64,
    pub mouse_y: i64,
    pub press_x: i64,
    pub press_y: i64,
    pub width: u32,
    pub height: u32,
}

impl InputState {
    /// The pointer is considered down exactly when the stored press-origin
    /// pair is non-negative.
    pub open spec fn pressed(self) -> bool {
        self.press_x >= 0 && self.press_y >= 0
    }

    /// A fresh input state: zero canvas and an all-zero mouse tuple.
    pub fn new() -> (s: InputState)
        ensures
            s == (InputState {
                mouse_x: 0,
                mouse_y: 0,
                press_x: 0,
                press_y: 0,
                width: 0,
                height: 0,
            }),
    {
        InputState { mouse_x: 0, mouse_y: 0, press_x: 0, press_y: 0, width: 0, height: 0 }
    }

    /// Record the canvas size; the mouse tuple is untouched.
    pub fn set_canvas_size(&mut self, w: u32, h: u32)
        ensures
            *final(self) == (InputState { width: w, height: h, ..*old(self) }),
    {
        self.width = w;
        self.height = h;
    }

    /// Press: current position and press origin both become `(x, y)`,
    /// stored with their natural sign.
    pub fn on_mouse_down(&mut self, x: i32, y: i32)
        ensures
            *final(self) == (InputState {
                mouse_x: x as i64,
                mouse_y: y as i64,
                press_x: x as i64,
                press_y: y as i64,
                ..*old(self)
            }),
    {
        self.mouse_x = x as i64;
        self.mouse_y = y as i64;
        self.press_x = x as i64;
        self.press_y = y as i64;
    }

    /// Drag: while the pointer is down, only the current position moves and
    /// the press origin stays; while it is up, the call is a no-op.
    pub fn on_mouse_move(&mut self, x: i32, y: i32)
        ensures
            old(self).pressed() ==> *final(self) == (InputState {
                mouse_x: x as i64,
                mouse_y: y as i64,
                ..*old(self)
            }),
            !old(self).pressed() ==> *final(self) == *old(self),
    {
        if self.press_x >= 0 && self.press_y >= 0 {
            self.mouse_x = x as i64;
            self.mouse_y = y as i64;
        }
    }

    /// Release: current position becomes `(x, y)` and the press origin
    /// becomes `(-x, -y)` — negated regardless of sign, which flips the
    /// pressed flag embedded in the sign bit.
    pub fn on_mouse_up(&mut self, x: i32, y: i32)
        ensures
            *final(self) == (InputState {
                mouse_x: x as i64,
                mouse_y: y as i64,
                press_x: (-(x as int)) as i64,
                press_y: (-(y as int)) as i64,
                ..*old(self)
            }),
    {
        self.mouse_x = x as i64;
        self.mouse_y = y as i64;
        self.press_x = -(x as i64);
        self.press_y = -(y as i64);
    }
}

} // verus!
