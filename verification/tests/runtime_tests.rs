use shaderjob::backend::{GraphicsBackend, StageKind};
use shaderjob::error::ShaderError;
use shaderjob::runtime::Runtime;

/// An in-memory graphics device: hands out fresh non-zero handles, keeps the
/// live-object books, panics on any use of a dead handle (so a protocol
/// violation fails the test), records every uniform/draw call, and fails
/// compiles or links on demand.
struct MockBackend {
    next: u32,
    live_shaders: Vec<(u32, StageKind)>,
    live_programs: Vec<u32>,
    draw_calls: u32,
    bound: u32,
    events: Vec<String>,
    vertex_compiles: bool,
    fragment_compiles: bool,
    link_ok: bool,
    creation_ok: bool,
    program_creation_ok: bool,
}

impl MockBackend {
    fn new() -> MockBackend {
        MockBackend {
            next: 10,
            live_shaders: Vec::new(),
            live_programs: Vec::new(),
            draw_calls: 0,
            bound: 0,
            events: Vec::new(),
            vertex_compiles: true,
            fragment_compiles: true,
            link_ok: true,
            creation_ok: true,
            program_creation_ok: true,
        }
    }

    fn shader_kind(&self, h: u32) -> StageKind {
        for &(live, kind) in &self.live_shaders {
            if live == h {
                return kind;
            }
        }
        panic!("query of a dead shader handle");
    }
}

impl GraphicsBackend for MockBackend {
    fn create_shader(&mut self, kind: StageKind) -> u32 {
        if !self.creation_ok {
            return 0;
        }
        self.next += 1;
        self.live_shaders.push((self.next, kind));
        self.next
    }

    fn shader_source(&mut self, shader: u32, _source: &str) {
        self.shader_kind(shader);
    }

    fn compile_shader(&mut self, shader: u32) {
        self.shader_kind(shader);
    }

    fn get_shader_compile_status(&self, shader: u32) -> bool {
        match self.shader_kind(shader) {
            StageKind::Vertex => self.vertex_compiles,
            StageKind::Fragment => self.fragment_compiles,
        }
    }

    fn get_shader_info_log(&self, shader: u32) -> String {
        match self.shader_kind(shader) {
            StageKind::Vertex => "vertex stage log".to_string(),
            StageKind::Fragment => "fragment stage log".to_string(),
        }
    }

    fn delete_shader(&mut self, shader: u32) {
        let before = self.live_shaders.len();
        self.live_shaders.retain(|&(live, _)| live != shader);
        assert!(self.live_shaders.len() + 1 == before, "delete of a dead shader handle");
    }

    fn create_program(&mut self) -> u32 {
        if !self.creation_ok || !self.program_creation_ok {
            return 0;
        }
        self.next += 1;
        self.live_programs.push(self.next);
        self.next
    }

    fn attach_shader(&mut self, program: u32, shader: u32) {
        assert!(self.live_programs.contains(&program));
        self.shader_kind(shader);
    }

    fn link_program(&mut self, program: u32) {
        assert!(self.live_programs.contains(&program));
    }

    fn get_program_link_status(&self, program: u32) -> bool {
        assert!(self.live_programs.contains(&program));
        self.link_ok
    }

    fn get_program_info_log(&self, program: u32) -> String {
        assert!(self.live_programs.contains(&program));
        "link log".to_string()
    }

    fn delete_program(&mut self, program: u32) {
        let before = self.live_programs.len();
        self.live_programs.retain(|&live| live != program);
        assert!(self.live_programs.len() + 1 == before, "delete of a dead program handle");
    }

    fn use_program(&mut self, program: u32) {
        assert!(program == 0 || self.live_programs.contains(&program));
        self.bound = program;
    }

    fn get_uniform_location(&self, program: u32, name: &str) -> i32 {
        assert!(self.live_programs.contains(&program));
        match name {
            "time" => 1,
            "delta" => 2,
            "resolution" => 3,
            "frame" => 4,
            "mouse" => 5,
            _ => -1,
        }
    }

    fn set_uniform_int(&mut self, location: i32, value: u64) {
        self.events.push(format!("int@{} {}", location, value));
    }

    fn set_uniform_millis(&mut self, location: i32, millis: u64) {
        self.events.push(format!("millis@{} {}", location, millis));
    }

    fn set_uniform_resolution(&mut self, location: i32, width: u32, height: u32) {
        self.events.push(format!("resolution@{} {}x{}", location, width, height));
    }

    fn set_uniform_mouse(&mut self, location: i32, x: i64, y: i64, press_x: i64, press_y: i64) {
        self.events.push(format!("mouse@{} {} {} {} {}", location, x, y, press_x, press_y));
    }

    fn set_viewport(&mut self, width: u32, height: u32) {
        self.events.push(format!("viewport {}x{}", width, height));
    }

    fn clear(&mut self) {
        self.events.push("clear".to_string());
    }

    fn draw_triangles(&mut self, vertices: u32) {
        assert_eq!(vertices, 3);
        self.draw_calls += 1;
    }
}

const VS: &str = "void main() { gl_Position = vec4(0.0); }";
const FS: &str = "void main() { gl_FragColor = vec4(1.0); }";

#[test]
fn draw_before_any_program_is_a_silent_noop() {
    let mut rt = Runtime::new(MockBackend::new(), 1000);
    rt.draw(1100);
    rt.draw(1200);
    assert_eq!(rt.backend.draw_calls, 0);
    assert_eq!(rt.clock.frames, 0);
    assert!(rt.backend.events.is_empty());
}

#[test]
fn successful_set_program_makes_draw_draw() {
    let mut rt = Runtime::new(MockBackend::new(), 1000);
    assert!(rt.set_program(VS, FS).is_ok());
    assert!(rt.swapper.program != 0);
    rt.draw(1100);
    assert_eq!(rt.backend.draw_calls, 1);
    assert_eq!(rt.clock.frames, 1);
    assert_eq!(rt.backend.bound, rt.swapper.program);
}

#[test]
fn successful_swap_releases_the_previous_program() {
    let mut rt = Runtime::new(MockBackend::new(), 1000);
    assert!(rt.set_program(VS, FS).is_ok());
    let first = (rt.swapper.vertex, rt.swapper.fragment, rt.swapper.program);
    assert!(rt.set_program(VS, FS).is_ok());
    assert_eq!(rt.backend.live_shaders.len(), 2);
    assert_eq!(rt.backend.live_programs.len(), 1);
    assert!(!rt.backend.live_programs.contains(&first.2));
    assert!(rt.backend.live_programs.contains(&rt.swapper.program));
}

#[test]
fn failing_set_program_keeps_the_last_good_program_drawable() {
    let mut rt = Runtime::new(MockBackend::new(), 1000);
    assert!(rt.set_program(VS, FS).is_ok());
    let good = (rt.swapper.vertex, rt.swapper.fragment, rt.swapper.program);

    rt.backend.fragment_compiles = false;
    let err = rt.set_program(VS, FS).unwrap_err();
    assert!(matches!(err, ShaderError::Compile(_)));
    assert_eq!(err.message().as_str(), "fragment stage log");

    assert_eq!((rt.swapper.vertex, rt.swapper.fragment, rt.swapper.program), good);
    assert_eq!(rt.backend.live_shaders.len(), 2);
    assert_eq!(rt.backend.live_programs.len(), 1);
    rt.draw(1100);
    assert_eq!(rt.backend.draw_calls, 1);
}

#[test]
fn compile_error_carries_the_compiler_log() {
    let mut rt = Runtime::new(MockBackend::new(), 1000);
    rt.backend.vertex_compiles = false;
    let err = rt.set_program(VS, FS).unwrap_err();
    assert!(matches!(err, ShaderError::Compile(_)));
    assert_eq!(err.message().as_str(), "vertex stage log");
    assert!(rt.backend.live_shaders.is_empty());
    assert!(rt.backend.live_programs.is_empty());
}

#[test]
fn link_error_carries_the_linker_log_and_frees_new_stages() {
    let mut rt = Runtime::new(MockBackend::new(), 1000);
    rt.backend.link_ok = false;
    let err = rt.set_program(VS, FS).unwrap_err();
    assert!(matches!(err, ShaderError::Link(_)));
    assert_eq!(err.message().as_str(), "link log");
    assert!(rt.backend.live_shaders.is_empty());
    assert!(rt.backend.live_programs.is_empty());
}

#[test]
fn object_creation_failure_is_a_compile_error() {
    let mut rt = Runtime::new(MockBackend::new(), 1000);
    rt.backend.creation_ok = false;
    let err = rt.set_program(VS, FS).unwrap_err();
    assert!(matches!(err, ShaderError::Compile(_)));
    assert_eq!(err.message().as_str(), "shader object creation failed");
}

#[test]
fn program_creation_failure_frees_the_new_stages() {
    let mut rt = Runtime::new(MockBackend::new(), 1000);
    rt.backend.program_creation_ok = false;
    let err = rt.set_program(VS, FS).unwrap_err();
    assert!(matches!(err, ShaderError::Link(_)));
    assert_eq!(err.message().as_str(), "program object creation failed");
    assert!(rt.backend.live_shaders.is_empty());
    assert!(rt.backend.live_programs.is_empty());
    assert_eq!(rt.swapper.program, 0);
}

#[test]
fn successful_fragment_swap_reuses_the_vertex_stage() {
    let mut rt = Runtime::new(MockBackend::new(), 1000);
    assert!(rt.set_program(VS, FS).is_ok());
    let good = (rt.swapper.vertex, rt.swapper.fragment, rt.swapper.program);

    assert!(rt.set_fragment_shader(FS).is_ok());
    assert_eq!(rt.swapper.vertex, good.0);
    assert!(rt.swapper.fragment != good.1);
    assert!(rt.swapper.program != good.2);
    assert!(!rt.backend.live_shaders.iter().any(|&(h, _)| h == good.1));
    assert!(!rt.backend.live_programs.contains(&good.2));
    assert_eq!(rt.backend.live_shaders.len(), 2);
    assert_eq!(rt.backend.live_programs.len(), 1);
}

#[test]
fn failing_vertex_swap_keeps_the_fragment_stage() {
    let mut rt = Runtime::new(MockBackend::new(), 1000);
    assert!(rt.set_program(VS, FS).is_ok());
    let good = (rt.swapper.vertex, rt.swapper.fragment, rt.swapper.program);

    rt.backend.vertex_compiles = false;
    let err = rt.set_vertex_shader(VS).unwrap_err();
    assert!(matches!(err, ShaderError::Compile(_)));

    assert_eq!((rt.swapper.vertex, rt.swapper.fragment, rt.swapper.program), good);
    assert!(rt.backend.live_shaders.iter().any(|&(h, _)| h == good.1));
    rt.draw(1100);
    assert_eq!(rt.backend.draw_calls, 1);
}

#[test]
fn failing_fragment_swap_keeps_the_vertex_stage() {
    let mut rt = Runtime::new(MockBackend::new(), 1000);
    assert!(rt.set_program(VS, FS).is_ok());
    let good = (rt.swapper.vertex, rt.swapper.fragment, rt.swapper.program);

    rt.backend.link_ok = false;
    let err = rt.set_fragment_shader(FS).unwrap_err();
    assert!(matches!(err, ShaderError::Link(_)));

    assert_eq!((rt.swapper.vertex, rt.swapper.fragment, rt.swapper.program), good);
    assert!(rt.backend.live_shaders.iter().any(|&(h, _)| h == good.0));
    assert_eq!(rt.backend.live_shaders.len(), 2);
    assert_eq!(rt.backend.live_programs.len(), 1);
}

#[test]
fn successful_vertex_swap_reuses_the_fragment_stage() {
    let mut rt = Runtime::new(MockBackend::new(), 1000);
    assert!(rt.set_program(VS, FS).is_ok());
    let good = (rt.swapper.vertex, rt.swapper.fragment, rt.swapper.program);

    assert!(rt.set_vertex_shader(VS).is_ok());
    assert_eq!(rt.swapper.fragment, good.1);
    assert!(rt.swapper.vertex != good.0);
    assert!(rt.swapper.program != good.2);
    assert!(!rt.backend.live_shaders.iter().any(|&(h, _)| h == good.0));
    assert!(!rt.backend.live_programs.contains(&good.2));
    assert_eq!(rt.backend.live_shaders.len(), 2);
    assert_eq!(rt.backend.live_programs.len(), 1);
}

#[test]
fn partial_swap_without_a_program_fails_and_changes_nothing() {
    let mut rt = Runtime::new(MockBackend::new(), 1000);
    let err = rt.set_vertex_shader(VS).unwrap_err();
    assert!(matches!(err, ShaderError::Link(_)));
    assert_eq!(err.message().as_str(), "no current program to relink against");
    assert_eq!(rt.swapper.program, 0);
    assert!(rt.backend.live_shaders.is_empty());
    assert!(rt.backend.live_programs.is_empty());
}

#[test]
fn draw_while_paused_freezes_everything() {
    let mut rt = Runtime::new(MockBackend::new(), 1000);
    assert!(rt.set_program(VS, FS).is_ok());
    rt.draw(1100);
    rt.pause(1200);
    rt.draw(1300);
    rt.draw(1400);
    assert_eq!(rt.backend.draw_calls, 1);
    assert_eq!(rt.clock.frames, 1);
    rt.play(1500);
    rt.draw(1500);
    assert_eq!(rt.backend.draw_calls, 2);
    assert_eq!(rt.clock.frames, 2);
}

#[test]
fn draw_binds_the_fixed_uniforms() {
    let mut rt = Runtime::new(MockBackend::new(), 1000);
    rt.set_canvas_size(640, 480);
    rt.set_mouse_down(5, 5);
    rt.set_mouse(9, 9);
    rt.set_mouse_up(1, 1);
    assert!(rt.set_program(VS, FS).is_ok());
    rt.draw(1250);
    let events = &rt.backend.events;
    assert!(events.contains(&"viewport 640x480".to_string()));
    assert!(events.contains(&"clear".to_string()));
    assert!(events.contains(&"millis@1 250".to_string()));
    assert!(events.contains(&"millis@2 250".to_string()));
    assert!(events.contains(&"resolution@3 640x480".to_string()));
    assert!(events.contains(&"int@4 1".to_string()));
    assert!(events.contains(&"mouse@5 1 1 -1 -1".to_string()));
}

#[test]
fn mouse_tuple_reaches_the_shader_while_pressed() {
    let mut rt = Runtime::new(MockBackend::new(), 1000);
    assert!(rt.set_program(VS, FS).is_ok());
    rt.set_mouse_down(5, 5);
    rt.set_mouse(9, 9);
    rt.draw(1100);
    assert!(rt.backend.events.contains(&"mouse@5 9 9 5 5".to_string()));
}

#[test]
fn restart_through_the_runtime_resets_the_frame_uniform() {
    let mut rt = Runtime::new(MockBackend::new(), 1000);
    assert!(rt.set_program(VS, FS).is_ok());
    rt.draw(1100);
    rt.draw(1200);
    assert!(rt.backend.events.contains(&"int@4 2".to_string()));
    rt.restart(2000);
    rt.draw(2050);
    assert!(rt.backend.events.contains(&"millis@1 50".to_string()));
    assert!(rt.backend.events.contains(&"int@4 1".to_string()));
    assert_eq!(rt.clock.frames, 1);
}

#[test]
fn destroy_releases_everything_exactly_once() {
    let mut rt = Runtime::new(MockBackend::new(), 1000);
    assert!(rt.set_program(VS, FS).is_ok());
    rt.destroy();
    assert_eq!(rt.swapper.program, 0);
    assert!(rt.backend.live_shaders.is_empty());
    assert!(rt.backend.live_programs.is_empty());
    rt.draw(1100);
    assert_eq!(rt.backend.draw_calls, 0);
    rt.destroy();
    assert!(rt.backend.live_shaders.is_empty());
}
