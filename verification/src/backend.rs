//! The graphics device as the host exposes it: a capability object that can
//! create, compile, link and delete shader and program objects, set the
//! fixed uniforms, and issue the per-frame draw call.
//!
//! The runtime consumes the device only through this trait; the host
//! implements it over its GL bindings. The contracts here are what the
//! runtime's proofs rest on, and an implementation is obliged to honour
//! them; they model three things the protocol depends on:
//!
//! - `shaders()` / `programs()`: the sets of live object handles. Creation
//!   returns a handle that is fresh and non-zero, or zero on failure (as GL
//!   object creation does); deletion requires a live handle and removes it,
//!   which is what makes "release exactly once" provable upstream.
//! - `draws()`: how many draw calls have been issued, so "this frame drew" /
//!   "this call drew nothing" are exact statements.
//!
//! Compile and link outcomes, info logs and uniform locations are left
//! entirely open: they depend on the device and the source text, and the
//! runtime is verified for every answer the device may give.

use vstd::prelude::*;

verus! {

/// Which pipeline stage a shader object is compiled for.
#[derive(Clone, Copy, PartialEq, Eq, Structural)]
pub enum StageKind {
    Vertex,
    Fragment,
}

/// The abstract graphics device. `0` is never a live handle: it is the
/// "no object" sentinel throughout the runtime.
pub trait GraphicsBackend: Sized {
    /// The set of currently live shader-object handles. The body here is
    /// only a default so that unverified hosts need not spell out a ghost
    /// member; the contracts below constrain it for every implementation.
    open spec fn shaders(&self) -> Set<u32> {
        Set::empty()
    }

    /// The set of currently live program-object handles.
    open spec fn programs(&self) -> Set<u32> {
        Set::empty()
    }

    /// How many draw calls have been issued so far.
    open spec fn draws(&self) -> nat {
        0
    }

    /// Create a shader object for `kind`. A non-zero result is a fresh live
    /// handle; zero means creation failed and nothing changed.
    fn create_shader(&mut self, kind: StageKind) -> (h: u32)
        ensures
            h != 0 ==> !old(self).shaders().contains(h) && final(self).shaders() == old(
                self,
            ).shaders().insert(h),
            h == 0 ==> final(self).shaders() == old(self).shaders(),
            final(self).programs() == old(self).programs(),
            final(self).draws() == old(self).draws(),
    ;

    /// Replace the source text of a live shader object.
    fn shader_source(&mut self, shader: u32, source: &str)
        requires
            old(self).shaders().contains(shader),
        ensures
            final(self).shaders() == old(self).shaders(),
            final(self).programs() == old(self).programs(),
            final(self).draws() == old(self).draws(),
    ;

    /// Compile a live shader object from its current source.
    fn compile_shader(&mut self, shader: u32)
        requires
            old(self).shaders().contains(shader),
        ensures
            final(self).shaders() == old(self).shaders(),
            final(self).programs() == old(self).programs(),
            final(self).draws() == old(self).draws(),
    ;

    /// Did the most recent compilation of this shader object succeed?
    fn get_shader_compile_status(&self, shader: u32) -> bool
        requires
            self.shaders().contains(shader),
    ;

    /// The compiler's diagnostic log for this shader object.
    fn get_shader_info_log(&self, shader: u32) -> String
        requires
            self.shaders().contains(shader),
    ;

    /// Delete a live shader object; its handle stops being live.
    fn delete_shader(&mut self, shader: u32)
        requires
            old(self).shaders().contains(shader),
        ensures
            final(self).shaders() == old(self).shaders().remove(shader),
            final(self).programs() == old(self).programs(),
            final(self).draws() == old(self).draws(),
    ;

    /// Create a program object. A non-zero result is a fresh live handle;
    /// zero means creation failed and nothing changed.
    fn create_program(&mut self) -> (p: u32)
        ensures
            p != 0 ==> !old(self).programs().contains(p) && final(self).programs() == old(
                self,
            ).programs().insert(p),
            p == 0 ==> final(self).programs() == old(self).programs(),
            final(self).shaders() == old(self).shaders(),
            final(self).draws() == old(self).draws(),
    ;

    /// Attach a live shader object to a live program object.
    fn attach_shader(&mut self, program: u32, shader: u32)
        requires
            old(self).programs().contains(program),
            old(self).shaders().contains(shader),
        ensures
            final(self).shaders() == old(self).shaders(),
            final(self).programs() == old(self).programs(),
            final(self).draws() == old(self).draws(),
    ;

    /// Link a live program object from its attached stages.
    fn link_program(&mut self, program: u32)
        requires
            old(self).programs().contains(program),
        ensures
            final(self).shaders() == old(self).shaders(),
            final(self).programs() == old(self).programs(),
            final(self).draws() == old(self).draws(),
    ;

    /// Did the most recent link of this program object succeed?
    fn get_program_link_status(&self, program: u32) -> bool
        requires
            self.programs().contains(program),
    ;

    /// The linker's diagnostic log for this program object.
    fn get_program_info_log(&self, program: u32) -> String
        requires
            self.programs().contains(program),
    ;

    /// Delete a live program object; its handle stops being live.
    fn delete_program(&mut self, program: u32)
        requires
            old(self).programs().contains(program),
        ensures
            final(self).programs() == old(self).programs().remove(program),
            final(self).shaders() == old(self).shaders(),
            final(self).draws() == old(self).draws(),
    ;

    /// Bind a live program for drawing, or unbind with the zero sentinel.
    fn use_program(&mut self, program: u32)
        requires
            program == 0 || old(self).programs().contains(program),
        ensures
            final(self).shaders() == old(self).shaders(),
            final(self).programs() == old(self).programs(),
            final(self).draws() == old(self).draws(),
    ;

    /// The location of a named uniform in a live program, `-1` when the
    /// program declares no such uniform.
    fn get_uniform_location(&self, program: u32, name: &str) -> i32
        requires
            self.programs().contains(program),
    ;

    /// Deliver an integer quantity to a uniform location (`-1`: ignored).
    fn set_uniform_int(&mut self, location: i32, value: u64)
        ensures
            final(self).shaders() == old(self).shaders(),
            final(self).programs() == old(self).programs(),
            final(self).draws() == old(self).draws(),
    ;

    /// Deliver a duration in milliseconds to a uniform location (`-1`:
    /// ignored); the device-side representation (for instance fractional
    /// seconds) is the implementation's business.
    fn set_uniform_millis(&mut self, location: i32, millis: u64)
        ensures
            final(self).shaders() == old(self).shaders(),
            final(self).programs() == old(self).programs(),
            final(self).draws() == old(self).draws(),
    ;

    /// Deliver the resolution triple `(width, height, aspect ratio)` to a
    /// uniform location (`-1`: ignored); the aspect ratio is derived by the
    /// implementation from the two integers.
    fn set_uniform_resolution(&mut self, location: i32, width: u32, height: u32)
        ensures
            final(self).shaders() == old(self).shaders(),
            final(self).programs() == old(self).programs(),
            final(self).draws() == old(self).draws(),
    ;

    /// Deliver the 4-component mouse tuple — current position and
    /// sign-encoded press origin — to a uniform location (`-1`: ignored).
    fn set_uniform_mouse(&mut self, location: i32, x: i64, y: i64, press_x: i64, press_y: i64)
        ensures
            final(self).shaders() == old(self).shaders(),
            final(self).programs() == old(self).programs(),
            final(self).draws() == old(self).draws(),
    ;

    /// Set the viewport to cover a canvas of the given size.
    fn set_viewport(&mut self, width: u32, height: u32)
        ensures
            final(self).shaders() == old(self).shaders(),
            final(self).programs() == old(self).programs(),
            final(self).draws() == old(self).draws(),
    ;

    /// Clear the framebuffer.
    fn clear(&mut self)
        ensures
            final(self).shaders() == old(self).shaders(),
            final(self).programs() == old(self).programs(),
            final(self).draws() == old(self).draws(),
    ;

    /// Issue one draw call of `vertices` vertices with the bound program;
    /// this is the only operation that counts as drawing.
    fn draw_triangles(&mut self, vertices: u32)
        ensures
            final(self).shaders() == old(self).shaders(),
            final(self).programs() == old(self).programs(),
            final(self).draws() == old(self).draws() + 1,
    ;
}

} // verus!
