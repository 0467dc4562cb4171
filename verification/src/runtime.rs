//! The runtime instance the host drives: it owns the device capability, the
//! current program, the virtual clock and the pointer state, and per frame
//! binds the fixed uniforms and issues one full-screen-triangle draw call.
//!
//! The uniforms are delivered under fixed names a shader author must use:
//! `"time"` (elapsed), `"delta"` (frame delta), `"resolution"` (width,
//! height, aspect ratio), `"frame"` (frame index) and `"mouse"` (the
//! 4-component tuple with the sign-encoded press origin).
//!
//! Every method that looks at the clock takes the host's current wall time
//! in milliseconds, which must never run backwards (`clock.hi()`).

use vstd::prelude::*;
use crate::backend::GraphicsBackend;
use crate::clock::Clock;
use crate::error::ShaderError;
use crate::input::InputState;
use crate::swapper::ProgramSwapper;

verus! {

/// One live-shader runtime around one host-provided device capability.
pub struct Runtime<B: GraphicsBackend> {
    pub backend: B,
    pub swapper: ProgramSwapper,
    pub clock: Clock,
    pub input: InputState,
}

impl<B: GraphicsBackend> Runtime<B> {
    /// The swapper is all-or-nothing, its handles are live on the device,
    /// and the clock can take any non-decreasing timestamp.
    pub open spec fn wf(self) -> bool {
        &&& self.swapper.wf()
        &&& self.swapper.live_in(self.backend)
        &&& self.clock.wf()
    }

    /// Build a runtime around the host's device capability: no program yet
    /// (drawing is a no-op), the clock playing from `now_ms`, the pointer
    /// tuple all zero.
    pub fn new(backend: B, now_ms: u64) -> (rt: Runtime<B>)
        ensures
            rt.wf(),
            rt.backend == backend,
            rt.swapper == (ProgramSwapper { vertex: 0, fragment: 0, program: 0 }),
            rt.clock == (Clock {
                start: now_ms,
                last_frame: now_ms,
                pause_at: now_ms,
                playing: true,
                frames: 0,
            }),
            rt.input == (InputState {
                mouse_x: 0,
                mouse_y: 0,
                press_x: 0,
                press_y: 0,
                width: 0,
                height: 0,
            }),
    {
        Runtime {
            backend,
            swapper: ProgramSwapper::new(),
            clock: Clock::new(now_ms),
            input: InputState::new(),
        }
    }

    /// Full swap: replace both stages atomically. On failure nothing the
    /// runtime renders with changes — the previous program, its stages and
    /// the whole clock/input state are exactly as before, and the error
    /// carries the compiler's or linker's log. On success the runtime holds
    /// a fresh linked program (never the zero sentinel), so drawing is no
    /// longer a no-op. No draw call is issued either way.
    pub fn set_program(&mut self, vertex_src: &str, fragment_src: &str) -> (r: Result<
        (),
        ShaderError,
    >)
        requires
            old(self).wf(),
        ensures
            final(self).wf(),
            final(self).clock == old(self).clock,
            final(self).input == old(self).input,
            final(self).backend.draws() == old(self).backend.draws(),
            match r {
                Ok(_) => final(self).swapper.program != 0,
                Err(_) => final(self).swapper == old(self).swapper
                    && final(self).backend.shaders() == old(self).backend.shaders()
                    && final(self).backend.programs() == old(self).backend.programs(),
            },
    {
        self.swapper.swap_both(&mut self.backend, vertex_src, fragment_src)
    }

    /// Partial swap of the vertex stage; the fragment stage is reused
    /// unchanged and never deleted. On failure (including when no program
    /// has been set yet) the runtime is left exactly as it was.
    pub fn set_vertex_shader(&mut self, vertex_src: &str) -> (r: Result<(), ShaderError>)
        requires
            old(self).wf(),
        ensures
            final(self).wf(),
            final(self).clock == old(self).clock,
            final(self).input == old(self).input,
            final(self).backend.draws() == old(self).backend.draws(),
            match r {
                Ok(_) => old(self).swapper.program != 0 && final(self).swapper.program != 0
                    && final(self).swapper.fragment == old(self).swapper.fragment
                    && final(self).backend.shaders().contains(final(self).swapper.fragment),
                Err(_) => final(self).swapper == old(self).swapper
                    && final(self).backend.shaders() == old(self).backend.shaders()
                    && final(self).backend.programs() == old(self).backend.programs(),
            },
    {
        self.swapper.swap_vertex(&mut self.backend, vertex_src)
    }

    /// Partial swap of the fragment stage; the vertex stage is reused
    /// unchanged and never deleted. On failure (including when no program
    /// has been set yet) the runtime is left exactly as it was.
    pub fn set_fragment_shader(&mut self, fragment_src: &str) -> (r: Result<(), ShaderError>)
        requires
            old(self).wf(),
        ensures
            final(self).wf(),
            final(self).clock == old(self).clock,
            final(self).input == old(self).input,
            final(self).backend.draws() == old(self).backend.draws(),
            match r {
                Ok(_) => old(self).swapper.program != 0 && final(self).swapper.program != 0
                    && final(self).swapper.vertex == old(self).swapper.vertex
                    && final(self).backend.shaders().contains(final(self).swapper.vertex),
                Err(_) => final(self).swapper == old(self).swapper
                    && final(self).backend.shaders() == old(self).backend.shaders()
                    && final(self).backend.programs() == old(self).backend.programs(),
            },
    {
        self.swapper.swap_fragment(&mut self.backend, fragment_src)
    }

    /// Record the canvas size for the viewport and resolution uniform.
    pub fn set_canvas_size(&mut self, width: u32, height: u32)
        requires
            old(self).wf(),
        ensures
            final(self).wf(),
            final(self).input == (InputState { width, height, ..old(self).input }),
            final(self).clock == old(self).clock,
            final(self).swapper == old(self).swapper,
            final(self).backend == old(self).backend,
    {
        self.input.set_canvas_size(width, height);
    }

    /// Pointer pressed at `(x, y)`.
    pub fn set_mouse_down(&mut self, x: i32, y: i32)
        requires
            old(self).wf(),
        ensures
            final(self).wf(),
            final(self).input == (InputState {
                mouse_x: x as i64,
                mouse_y: y as i64,
                press_x: x as i64,
                press_y: y as i64,
                ..old(self).input
            }),
            final(self).clock == old(self).clock,
            final(self).swapper == old(self).swapper,
            final(self).backend == old(self).backend,
    {
        self.input.on_mouse_down(x, y);
    }

    /// Pointer moved to `(x, y)`: only effective while the pointer is down;
    /// the press origin stays where the press happened.
    pub fn set_mouse(&mut self, x: i32, y: i32)
        requires
            old(self).wf(),
        ensures
            final(self).wf(),
            old(self).input.pressed() ==> final(self).input == (InputState {
                mouse_x: x as i64,
                mouse_y: y as i64,
                ..old(self).input
            }),
            !old(self).input.pressed() ==> final(self).input == old(self).input,
            final(self).clock == old(self).clock,
            final(self).swapper == old(self).swapper,
            final(self).backend == old(self).backend,
    {
        self.input.on_mouse_move(x, y);
    }

    /// Pointer released at `(x, y)`: the press origin is negated, flipping
    /// the pressed flag carried in its sign.
    pub fn set_mouse_up(&mut self, x: i32, y: i32)
        requires
            old(self).wf(),
        ensures
            final(self).wf(),
            final(self).input == (InputState {
                mouse_x: x as i64,
                mouse_y: y as i64,
                press_x: (-(x as int)) as i64,
                press_y: (-(y as int)) as i64,
                ..old(self).input
            }),
            final(self).clock == old(self).clock,
            final(self).swapper == old(self).swapper,
            final(self).backend == old(self).backend,
    {
        self.input.on_mouse_up(x, y);
    }

    /// Resume the clock; a no-op when already playing. Elapsed time
    /// continues exactly where it was frozen.
    pub fn play(&mut self, now_ms: u64)
        requires
            old(self).wf(),
            now_ms >= old(self).clock.hi(),
        ensures
            final(self).wf(),
            final(self).clock == old(self).clock.resumed_at(now_ms),
            final(self).clock.hi() <= now_ms,
            final(self).input == old(self).input,
            final(self).swapper == old(self).swapper,
            final(self).backend == old(self).backend,
    {
        self.clock.play(now_ms);
    }

    /// Freeze the clock; a no-op when already paused. While paused, `draw`
    /// does nothing and elapsed time does not advance.
    pub fn pause(&mut self, now_ms: u64)
        requires
            old(self).wf(),
            now_ms >= old(self).clock.hi(),
        ensures
            final(self).wf(),
            final(self).clock == old(self).clock.paused_at(now_ms),
            final(self).clock.hi() <= now_ms,
            final(self).input == old(self).input,
            final(self).swapper == old(self).swapper,
            final(self).backend == old(self).backend,
    {
        self.clock.pause(now_ms);
    }

    /// Reset elapsed time and the frame counter to zero; the play/pause
    /// state is kept.
    pub fn restart(&mut self, now_ms: u64)
        requires
            old(self).wf(),
            now_ms >= old(self).clock.hi(),
        ensures
            final(self).wf(),
            final(self).clock == old(self).clock.restarted_at(now_ms),
            final(self).clock.hi() <= now_ms,
            final(self).input == old(self).input,
            final(self).swapper == old(self).swapper,
            final(self).backend == old(self).backend,
    {
        self.clock.restart(now_ms);
    }

    /// One display frame. While paused, or before any successful full swap,
    /// this is a complete no-op: no device call, no clock movement, no
    /// error. Otherwise the clock ticks once and exactly one draw call is
    /// issued, after the fixed uniforms are bound.
    pub fn draw(&mut self, now_ms: u64)
        requires
            old(self).wf(),
            now_ms >= old(self).clock.hi(),
        ensures
            final(self).wf(),
            final(self).clock.hi() <= now_ms,
            final(self).swapper == old(self).swapper,
            final(self).input == old(self).input,
            final(self).backend.shaders() == old(self).backend.shaders(),
            final(self).backend.programs() == old(self).backend.programs(),
            !old(self).clock.playing ==> *final(self) == *old(self),
            old(self).clock.playing && old(self).swapper.program == 0
                ==> *final(self) == *old(self),
            old(self).clock.playing && old(self).swapper.program != 0
                ==> final(self).clock == old(self).clock.ticked(now_ms)
                && final(self).backend.draws() == old(self).backend.draws() + 1,
    {
        if !self.clock.playing {
            return ;
        }
        if self.swapper.program == 0 {
            return ;
        }
        let (elapsed, delta) = self.clock.tick(now_ms);
        let p = self.swapper.program;
        self.backend.use_program(p);
        self.backend.set_viewport(self.input.width, self.input.height);
        self.backend.clear();
        let loc_time = self.backend.get_uniform_location(p, "time");
        self.backend.set_uniform_millis(loc_time, elapsed);
        let loc_delta = self.backend.get_uniform_location(p, "delta");
        self.backend.set_uniform_millis(loc_delta, delta);
        let loc_resolution = self.backend.get_uniform_location(p, "resolution");
        self.backend.set_uniform_resolution(loc_resolution, self.input.width, self.input.height);
        let loc_frame = self.backend.get_uniform_location(p, "frame");
        self.backend.set_uniform_int(loc_frame, self.clock.frames);
        let loc_mouse = self.backend.get_uniform_location(p, "mouse");
        self.backend.set_uniform_mouse(
            loc_mouse,
            self.input.mouse_x,
            self.input.mouse_y,
            self.input.press_x,
            self.input.press_y,
        );
        self.backend.draw_triangles(3);
    }

    /// Tear down the rendering state: release the current program and its
    /// stages exactly once; drawing is a no-op from here on. Safe to call
    /// with no program, and safe to call once more after itself.
    pub fn destroy(&mut self)
        requires
            old(self).wf(),
        ensures
            final(self).wf(),
            final(self).swapper.program == 0,
            final(self).clock == old(self).clock,
            final(self).input == old(self).input,
            final(self).backend.draws() == old(self).backend.draws(),
            old(self).swapper.program == 0 ==> *final(self) == *old(self),
            old(self).swapper.program != 0 ==> final(self).backend.shaders() == old(
                self,
            ).backend.shaders().remove(old(self).swapper.vertex).remove(old(self).swapper.fragment)
                && final(self).backend.programs() == old(self).backend.programs().remove(
                old(self).swapper.program,
            ),
    {
        self.swapper.release(&mut self.backend);
    }
}

} // verus!
