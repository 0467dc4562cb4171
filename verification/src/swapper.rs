//! The shader-program lifecycle: owns the current vertex, fragment and
//! linked-program handles and performs the atomic swap protocol.
//!
//! The protocol, for every swap operation: compile the new stage(s) first,
//! before touching any existing resource. If any new stage fails to compile,
//! or the relink fails, abort — the previously linked program and its stages
//! are left completely untouched and still drawable, the diagnostic log is
//! surfaced as the error, and every just-created object that is not being
//! kept is released. Only after a successful link are the superseded handles
//! deleted and the current-program fields moved to the new handles, so the
//! renderer is never left with a half-constructed program.

use vstd::prelude::*;
use crate::backend::{GraphicsBackend, StageKind};
use crate::error::ShaderError;

verus! {

/// Compile one ephemeral stage: create a shader object, hand it the source,
/// compile. On success the fresh handle is returned (and is now live); on
/// failure the device's diagnostic log is returned, the failed object is
/// released at once, and the device holds exactly what it held before.
pub fn compile_stage<B: GraphicsBackend>(b: &mut B, kind: StageKind, source: &str) -> (r: Result<
    u32,
    ShaderError,
>)
    ensures
        final(b).programs() == old(b).programs(),
        final(b).draws() == old(b).draws(),
        match r {
            Ok(h) => h != 0 && !old(b).shaders().contains(h) && final(b).shaders() == old(b).shaders().insert(h),
            Err(e) => final(b).shaders() == old(b).shaders() && e is Compile,
        },
{
    let h = b.create_shader(kind);
    if h == 0 {
        return Err(ShaderError::Compile("shader object creation failed".to_owned()));
    }
    b.shader_source(h, source);
    b.compile_shader(h);
    if b.get_shader_compile_status(h) {
        Ok(h)
    } else {
        let log = b.get_shader_info_log(h);
        b.delete_shader(h);
        proof {
            assert(old(b).shaders().insert(h).remove(h) =~= old(b).shaders());
        }
        Err(ShaderError::Compile(log))
    }
}

/// Link two live stages into a fresh program object. On success the fresh
/// program handle is returned (and is now live); on failure the linker's
/// log is returned, the failed program object is released at once, and the
/// device's programs are exactly what they were before. The two stages are
/// never touched.
pub fn link_stages<B: GraphicsBackend>(b: &mut B, vertex: u32, fragment: u32) -> (r: Result<
    u32,
    ShaderError,
>)
    requires
        old(b).shaders().contains(vertex),
        old(b).shaders().contains(fragment),
    ensures
        final(b).shaders() == old(b).shaders(),
        final(b).draws() == old(b).draws(),
        match r {
            Ok(p) => p != 0 && !old(b).programs().contains(p) && final(b).programs() == old(b).programs().insert(p),
            Err(e) => final(b).programs() == old(b).programs() && e is Link,
        },
{
    let p = b.create_program();
    if p == 0 {
        return Err(ShaderError::Link("program object creation failed".to_owned()));
    }
    b.attach_shader(p, vertex);
    b.attach_shader(p, fragment);
    b.link_program(p);
    if b.get_program_link_status(p) {
        Ok(p)
    } else {
        let log = b.get_program_info_log(p);
        b.delete_program(p);
        proof {
            assert(old(b).programs().insert(p).remove(p) =~= old(b).programs());
        }
        Err(ShaderError::Link(log))
    }
}

/// The current program: either nothing yet (all three handles are the zero
/// sentinel, drawing is a no-op) or a linked vertex/fragment pair.
pub struct ProgramSwapper {
    pub vertex: u32,
    pub fragment: u32,
    pub program: u32,
}

impl ProgramSwapper {
    /// All-or-nothing: either no program and no stages, or a program with
    /// two distinct stage handles.
    pub open spec fn wf(self) -> bool {
        &&& self.program == 0 <==> self.vertex == 0
        &&& self.program == 0 <==> self.fragment == 0
        &&& self.program != 0 ==> self.vertex != self.fragment
    }

    /// Every handle the swapper holds is live on the device — the swapper
    /// never dangles, and release-exactly-once follows from the device's
    /// deletion contract.
    pub open spec fn live_in<B: GraphicsBackend>(self, b: B) -> bool {
        self.program != 0 ==> b.shaders().contains(self.vertex) && b.shaders().contains(
            self.fragment,
        ) && b.programs().contains(self.program)
    }

    /// A swapper with no program yet: drawing stays a no-op until the first
    /// successful full swap.
    pub fn new() -> (s: ProgramSwapper)
        ensures
            s == (ProgramSwapper { vertex: 0, fragment: 0, program: 0 }),
            s.wf(),
    {
        ProgramSwapper { vertex: 0, fragment: 0, program: 0 }
    }

    /// Replace both stages atomically. On any failure the previous program
    /// and stages are untouched (and every new object released); on success
    /// the previous handles are released exactly once and the swapper holds
    /// the fresh, linked, non-zero handles.
    pub fn swap_both<B: GraphicsBackend>(
        &mut self,
        b: &mut B,
        vertex_src: &str,
        fragment_src: &str,
    ) -> (r: Result<(), ShaderError>)
        requires
            old(self).wf(),
            old(self).live_in(*old(b)),
        ensures
            final(self).wf(),
            final(self).live_in(*final(b)),
            final(b).draws() == old(b).draws(),
            match r {
                Ok(_) => final(self).program != 0 && (old(self).program != 0
                    ==> !final(b).shaders().contains(old(self).vertex)
                    && !final(b).shaders().contains(old(self).fragment)
                    && !final(b).programs().contains(old(self).program)),
                Err(_) => *final(self) == *old(self) && final(b).shaders() == old(b).shaders()
                    && final(b).programs() == old(b).programs(),
            },
    {
        let vs = match compile_stage(b, StageKind::Vertex, vertex_src) {
            Ok(h) => h,
            Err(e) => { return Err(e); },
        };
        let fs = match compile_stage(b, StageKind::Fragment, fragment_src) {
            Ok(h) => h,
            Err(e) => {
                b.delete_shader(vs);
                proof {
                    assert(old(b).shaders().insert(vs).remove(vs) =~= old(b).shaders());
                }
                return Err(e);
            },
        };
        let p = match link_stages(b, vs, fs) {
            Ok(p) => p,
            Err(e) => {
                b.delete_shader(fs);
                b.delete_shader(vs);
                proof {
                    assert(old(b).shaders().insert(vs).insert(fs).remove(fs).remove(vs) =~= old(b).shaders());
                }
                return Err(e);
            },
        };
        if self.program != 0 {
            b.delete_shader(self.vertex);
            b.delete_shader(self.fragment);
            b.delete_program(self.program);
        }
        self.vertex = vs;
        self.fragment = fs;
        self.program = p;
        Ok(())
    }

    /// Replace only the vertex stage and relink against the unchanged
    /// fragment stage. The reused fragment stage is never deleted; only the
    /// superseded vertex stage and program are, and only on success. With
    /// no current program there is nothing to relink against, so the call
    /// fails (a link error) without touching anything.
    pub fn swap_vertex<B: GraphicsBackend>(&mut self, b: &mut B, vertex_src: &str) -> (r: Result<
        (),
        ShaderError,
    >)
        requires
            old(self).wf(),
            old(self).live_in(*old(b)),
        ensures
            final(self).wf(),
            final(self).live_in(*final(b)),
            final(b).draws() == old(b).draws(),
            match r {
                Ok(_) => old(self).program != 0 && final(self).program != 0
                    && final(self).fragment == old(self).fragment
                    && final(b).shaders().contains(final(self).fragment)
                    && !final(b).shaders().contains(old(self).vertex)
                    && !final(b).programs().contains(old(self).program),
                Err(_) => *final(self) == *old(self) && final(b).shaders() == old(b).shaders()
                    && final(b).programs() == old(b).programs(),
            },
    {
        let vs = match compile_stage(b, StageKind::Vertex, vertex_src) {
            Ok(h) => h,
            Err(e) => { return Err(e); },
        };
        if self.program == 0 {
            b.delete_shader(vs);
            proof {
                assert(old(b).shaders().insert(vs).remove(vs) =~= old(b).shaders());
            }
            return Err(ShaderError::Link("no current program to relink against".to_owned()));
        }
        let p = match link_stages(b, vs, self.fragment) {
            Ok(p) => p,
            Err(e) => {
                b.delete_shader(vs);
                proof {
                    assert(old(b).shaders().insert(vs).remove(vs) =~= old(b).shaders());
                }
                return Err(e);
            },
        };
        b.delete_shader(self.vertex);
        b.delete_program(self.program);
        self.vertex = vs;
        self.program = p;
        Ok(())
    }

    /// Replace only the fragment stage and relink against the unchanged
    /// vertex stage; the mirror image of `swap_vertex`.
    pub fn swap_fragment<B: GraphicsBackend>(&mut self, b: &mut B, fragment_src: &str) -> (r:
        Result<(), ShaderError>)
        requires
            old(self).wf(),
            old(self).live_in(*old(b)),
        ensures
            final(self).wf(),
            final(self).live_in(*final(b)),
            final(b).draws() == old(b).draws(),
            match r {
                Ok(_) => old(self).program != 0 && final(self).program != 0
                    && final(self).vertex == old(self).vertex
                    && final(b).shaders().contains(final(self).vertex)
                    && !final(b).shaders().contains(old(self).fragment)
                    && !final(b).programs().contains(old(self).program),
                Err(_) => *final(self) == *old(self) && final(b).shaders() == old(b).shaders()
                    && final(b).programs() == old(b).programs(),
            },
    {
        let fs = match compile_stage(b, StageKind::Fragment, fragment_src) {
            Ok(h) => h,
            Err(e) => { return Err(e); },
        };
        if self.program == 0 {
            b.delete_shader(fs);
            proof {
                assert(old(b).shaders().insert(fs).remove(fs) =~= old(b).shaders());
            }
            return Err(ShaderError::Link("no current program to relink against".to_owned()));
        }
        let p = match link_stages(b, self.vertex, fs) {
            Ok(p) => p,
            Err(e) => {
                b.delete_shader(fs);
                proof {
                    assert(old(b).shaders().insert(fs).remove(fs) =~= old(b).shaders());
                }
                return Err(e);
            },
        };
        b.delete_shader(self.fragment);
        b.delete_program(self.program);
        self.fragment = fs;
        self.program = p;
        Ok(())
    }

    /// Tear down: release the current program and its two stages exactly
    /// once and return to the no-program state; with no program, a no-op.
    pub fn release<B: GraphicsBackend>(&mut self, b: &mut B)
        requires
            old(self).wf(),
            old(self).live_in(*old(b)),
        ensures
            final(self).wf(),
            final(self).live_in(*final(b)),
            final(self).program == 0,
            final(b).draws() == old(b).draws(),
            old(self).program != 0 ==> final(b).shaders() == old(b).shaders().remove(
                old(self).vertex,
            ).remove(old(self).fragment) && final(b).programs() == old(b).programs().remove(
                old(self).program,
            ),
            old(self).program == 0 ==> *final(self) == *old(self) && *final(b) == *old(b),
    {
        if self.program != 0 {
            b.delete_shader(self.vertex);
            b.delete_shader(self.fragment);
            b.delete_program(self.program);
            self.vertex = 0;
            self.fragment = 0;
            self.program = 0;
        }
    }
}

} // verus!
