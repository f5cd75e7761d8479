//! The pipeline against a driver that lives in memory: it keeps count of the
//! objects it has handed out, compiles by a rule of thumb and logs every call.

use glscene::error::PipelineError;
use glscene::gl::{Context, GlCall, GlReply, Perspective, ShaderStage};
use glscene::models::{Cube, Model};
use glscene::renderer::{
    draw, establish, resolve, Bindings, Phase, ShaderSources, State, COLOR_ATTRIBUTE,
    DEFAULT_FRAGMENT, DEFAULT_VERTEX, MODEL_VIEW_UNIFORM, POSITION_ATTRIBUTE, PROJECTION_UNIFORM,
};
use glscene::shader::{assemble, init, load, CompiledShader, LinkedProgram};
use std::cell::RefCell;
use std::collections::BTreeMap;

struct Shader {
    stage: ShaderStage,
    source: String,
    compiled: bool,
}

struct Program {
    attached: Vec<u32>,
    linked: bool,
    attributes: Vec<String>,
    uniforms: Vec<String>,
}

struct Gpu {
    next: u32,
    out_of_objects: bool,
    shaders: BTreeMap<u32, Shader>,
    programs: BTreeMap<u32, Program>,
    calls: Vec<GlCall>,
}

fn declared(source: &str, keyword: &str) -> Vec<String> {
    let mut names = Vec::new();
    for line in source.lines() {
        let words: Vec<&str> = line.split_whitespace().collect();
        if words.len() == 3 && words[0] == keyword {
            names.push(words[2].trim_end_matches(';').to_string());
        }
    }
    names
}

impl Gpu {
    fn new() -> Self {
        Gpu {
            next: 1,
            out_of_objects: false,
            shaders: BTreeMap::new(),
            programs: BTreeMap::new(),
            calls: Vec::new(),
        }
    }

    fn allocate(&mut self) -> Option<u32> {
        if self.out_of_objects {
            return None;
        }
        let id = self.next;
        self.next += 1;
        Some(id)
    }

    fn live(&self) -> usize {
        self.shaders.len() + self.programs.len()
    }

    fn answer(&mut self, call: GlCall) -> GlReply {
        self.calls.push(call.clone());
        match call {
            GlCall::CreateShader { stage } => {
                let id = self.allocate();
                if let Some(id) = id {
                    self.shaders.insert(id, Shader { stage, source: String::new(), compiled: false });
                }
                GlReply::Id(id)
            }
            GlCall::ShaderSource { shader, source } => {
                self.shaders.get_mut(&shader).unwrap().source = source;
                GlReply::Nothing
            }
            GlCall::CompileShader { shader } => {
                let unit = self.shaders.get_mut(&shader).unwrap();
                unit.compiled = unit.source.contains("void main()") && !unit.source.contains("#error");
                GlReply::Nothing
            }
            GlCall::CompileStatus { shader } => GlReply::Flag(self.shaders[&shader].compiled),
            GlCall::ShaderInfoLog { shader } => {
                if self.shaders[&shader].compiled {
                    GlReply::Log(Some(String::new()))
                } else {
                    GlReply::Log(Some("ERROR: 0:1: syntax error".to_string()))
                }
            }
            GlCall::DeleteShader { shader } => {
                assert!(self.shaders.remove(&shader).is_some());
                GlReply::Nothing
            }
            GlCall::CreateProgram => {
                let id = self.allocate();
                if let Some(id) = id {
                    self.programs.insert(
                        id,
                        Program {
                            attached: Vec::new(),
                            linked: false,
                            attributes: Vec::new(),
                            uniforms: Vec::new(),
                        },
                    );
                }
                GlReply::Id(id)
            }
            GlCall::AttachShader { program, shader } => {
                assert!(self.shaders.contains_key(&shader));
                self.programs.get_mut(&program).unwrap().attached.push(shader);
                GlReply::Nothing
            }
            GlCall::LinkProgram { program } => {
                let attached = self.programs[&program].attached.clone();
                let mut linked = attached.len() == 2;
                let mut attributes = Vec::new();
                let mut uniforms = Vec::new();
                for id in attached {
                    let unit = &self.shaders[&id];
                    linked = linked && unit.compiled && !unit.source.contains("undefined_symbol");
                    if unit.stage == ShaderStage::Vertex {
                        attributes = declared(&unit.source, "attribute");
                    }
                    uniforms.extend(declared(&unit.source, "uniform"));
                }
                let object = self.programs.get_mut(&program).unwrap();
                object.linked = linked;
                object.attributes = attributes;
                object.uniforms = uniforms;
                GlReply::Nothing
            }
            GlCall::LinkStatus { program } => GlReply::Flag(self.programs[&program].linked),
            GlCall::ProgramInfoLog { program } => {
                assert!(self.programs.contains_key(&program));
                GlReply::Log(Some("ERROR: undefined_symbol is not defined".to_string()))
            }
            GlCall::DetachShader { program, shader } => {
                let object = self.programs.get_mut(&program).unwrap();
                let before = object.attached.len();
                object.attached.retain(|id| *id != shader);
                assert_eq!(object.attached.len() + 1, before);
                GlReply::Nothing
            }
            GlCall::DeleteProgram { program } => {
                assert!(self.programs.remove(&program).is_some());
                GlReply::Nothing
            }
            GlCall::AttribLocation { program, name } => {
                let object = &self.programs[&program];
                assert!(object.linked);
                GlReply::Id(object.attributes.iter().position(|n| *n == name).map(|i| i as u32))
            }
            GlCall::UniformLocation { program, name } => {
                let object = &self.programs[&program];
                assert!(object.linked);
                GlReply::Id(object.uniforms.iter().position(|n| *n == name).map(|i| 100 + i as u32))
            }
            GlCall::UseProgram { program } => {
                assert!(self.programs[&program].linked);
                GlReply::Nothing
            }
            _ => GlReply::Nothing,
        }
    }
}

fn driver_of<'a>(gpu: &'a RefCell<Gpu>) -> impl Fn(GlCall) -> GlReply + 'a {
    move |call| gpu.borrow_mut().answer(call)
}

const BROKEN: &str = "void main() {\n#error\n}\n";

const UNLINKABLE: &str = "void main() {\n    gl_FragColor = undefined_symbol;\n}\n";

const COLORED_VERTEX: &str = "attribute vec4 aVertexPosition;\nattribute vec4 aVertexColor;\nuniform mat4 uModelViewMatrix;\nuniform mat4 uProjectionMatrix;\nvoid main() {\n}\n";

fn cube_bindings() -> Bindings {
    Bindings {
        program: LinkedProgram { handle: 3 },
        position: 0,
        color: None,
        projection: 101,
        model_view: 100,
    }
}

fn expected_frame(bindings: Bindings, width: u32, height: u32) -> Vec<GlCall> {
    let cube = Cube::new();
    let mut frame = vec![
        GlCall::ClearColor { red: 0, green: 0, blue: 0, alpha: 1 },
        GlCall::ClearDepth { depth: 1 },
        GlCall::EnableDepthTest,
        GlCall::DepthFuncLessOrEqual,
        GlCall::Clear { color_buffer: true, depth_buffer: true },
        GlCall::AttributeData {
            location: bindings.position,
            data: cube.positions(),
            components: 3,
            normalized: false,
            stride: 0,
            offset: 0,
        },
        GlCall::EnableAttribute { location: bindings.position },
    ];
    if let Some(color) = bindings.color {
        frame.push(GlCall::AttributeData {
            location: color,
            data: cube.colors(),
            components: 4,
            normalized: false,
            stride: 0,
            offset: 0,
        });
        frame.push(GlCall::EnableAttribute { location: color });
    }
    frame.push(GlCall::UseProgram { program: bindings.program.handle });
    frame.push(GlCall::UniformPerspective {
        location: bindings.projection,
        transpose: false,
        projection: Perspective {
            fov_degrees: 45,
            width,
            height,
            near_tenths: 1,
            far_tenths: 1000,
        },
    });
    frame.push(GlCall::UniformMatrix {
        location: bindings.model_view,
        transpose: false,
        matrix: vec![1, 0, 0, 0, 0, 1, 0, 0, 0, 0, 1, 0, 0, 0, -6, 1],
    });
    frame.push(GlCall::DrawTriangles { indices: cube.indices() });
    frame
}

#[test]
fn load_compiles_a_valid_source() {
    let gpu = RefCell::new(Gpu::new());
    let mut gl = Context::new(|call| gpu.borrow_mut().answer(call));
    let unit = load(&mut gl, ShaderStage::Vertex, DEFAULT_VERTEX);
    assert_eq!(unit, Ok(CompiledShader { handle: 1, stage: ShaderStage::Vertex }));
    assert_eq!(
        gpu.borrow().calls,
        vec![
            GlCall::CreateShader { stage: ShaderStage::Vertex },
            GlCall::ShaderSource { shader: 1, source: DEFAULT_VERTEX.to_string() },
            GlCall::CompileShader { shader: 1 },
            GlCall::CompileStatus { shader: 1 },
        ]
    );
    assert_eq!(gpu.borrow().shaders.len(), 1);
    assert_eq!(gpu.borrow().shaders[&1].source, DEFAULT_VERTEX);
}

#[test]
fn load_rejects_an_invalid_source_and_releases_the_shader() {
    let gpu = RefCell::new(Gpu::new());
    let mut gl = Context::new(|call| gpu.borrow_mut().answer(call));
    let unit = load(&mut gl, ShaderStage::Fragment, BROKEN);
    let error = unit.unwrap_err();
    assert_eq!(
        error,
        PipelineError::Compile {
            stage: ShaderStage::Fragment,
            log: "ERROR: 0:1: syntax error".to_string(),
        }
    );
    assert_eq!(
        error.message(),
        "An error occurred compiling the shaders: ERROR: 0:1: syntax error"
    );
    assert!(!error.message().is_empty());
    assert_eq!(gpu.borrow().live(), 0);
    assert_eq!(
        gpu.borrow().calls,
        vec![
            GlCall::CreateShader { stage: ShaderStage::Fragment },
            GlCall::ShaderSource { shader: 1, source: BROKEN.to_string() },
            GlCall::CompileShader { shader: 1 },
            GlCall::CompileStatus { shader: 1 },
            GlCall::ShaderInfoLog { shader: 1 },
            GlCall::DeleteShader { shader: 1 },
        ]
    );
}

#[test]
fn load_without_a_shader_object_is_an_allocation_error() {
    let gpu = RefCell::new(Gpu::new());
    gpu.borrow_mut().out_of_objects = true;
    let mut gl = Context::new(|call| gpu.borrow_mut().answer(call));
    let unit = load(&mut gl, ShaderStage::Vertex, DEFAULT_VERTEX);
    assert_eq!(unit, Err(PipelineError::Allocation));
    assert_eq!(gpu.borrow().calls, vec![GlCall::CreateShader { stage: ShaderStage::Vertex }]);
    assert_eq!(PipelineError::Allocation.message(), "The graphics context returned no object");
}

#[test]
fn load_takes_a_missing_log_as_an_empty_one() {
    let mut gl = Context::new(|call| match call {
        GlCall::CreateShader { .. } => GlReply::Id(Some(9)),
        GlCall::CompileStatus { .. } => GlReply::Flag(false),
        GlCall::ShaderInfoLog { .. } => GlReply::Log(None),
        _ => GlReply::Nothing,
    });
    let error = load(&mut gl, ShaderStage::Vertex, "").unwrap_err();
    assert_eq!(error, PipelineError::Compile { stage: ShaderStage::Vertex, log: String::new() });
    assert_eq!(error.message(), "An error occurred compiling the shaders: ");
}

#[test]
fn load_takes_only_a_plain_yes_for_a_yes() {
    let mut gl = Context::new(|call| match call {
        GlCall::CreateShader { .. } => GlReply::Id(Some(9)),
        GlCall::CompileStatus { .. } => GlReply::Nothing,
        GlCall::ShaderInfoLog { .. } => GlReply::Log(Some("no status".to_string())),
        _ => GlReply::Nothing,
    });
    let error = load(&mut gl, ShaderStage::Vertex, "").unwrap_err();
    assert_eq!(
        error,
        PipelineError::Compile { stage: ShaderStage::Vertex, log: "no status".to_string() }
    );
}

#[test]
fn init_links_the_default_sources() {
    let gpu = RefCell::new(Gpu::new());
    let mut gl = Context::new(|call| gpu.borrow_mut().answer(call));
    let program = init(&mut gl, DEFAULT_VERTEX, DEFAULT_FRAGMENT);
    assert_eq!(program, Ok(LinkedProgram { handle: 3 }));
    let gpu = gpu.borrow();
    assert_eq!(gpu.shaders.len(), 0);
    assert_eq!(gpu.programs.len(), 1);
    assert!(gpu.programs[&3].linked);
    assert_eq!(
        gpu.calls,
        vec![
            GlCall::CreateShader { stage: ShaderStage::Vertex },
            GlCall::ShaderSource { shader: 1, source: DEFAULT_VERTEX.to_string() },
            GlCall::CompileShader { shader: 1 },
            GlCall::CompileStatus { shader: 1 },
            GlCall::CreateShader { stage: ShaderStage::Fragment },
            GlCall::ShaderSource { shader: 2, source: DEFAULT_FRAGMENT.to_string() },
            GlCall::CompileShader { shader: 2 },
            GlCall::CompileStatus { shader: 2 },
            GlCall::CreateProgram,
            GlCall::AttachShader { program: 3, shader: 1 },
            GlCall::AttachShader { program: 3, shader: 2 },
            GlCall::LinkProgram { program: 3 },
            GlCall::LinkStatus { program: 3 },
            GlCall::DetachShader { program: 3, shader: 1 },
            GlCall::DeleteShader { shader: 1 },
            GlCall::DetachShader { program: 3, shader: 2 },
            GlCall::DeleteShader { shader: 2 },
        ]
    );
}

#[test]
fn init_with_an_invalid_vertex_source_leaves_nothing_behind() {
    let gpu = RefCell::new(Gpu::new());
    let mut gl = Context::new(|call| gpu.borrow_mut().answer(call));
    let error = init(&mut gl, BROKEN, DEFAULT_FRAGMENT).unwrap_err();
    assert_eq!(
        error,
        PipelineError::Compile {
            stage: ShaderStage::Vertex,
            log: "ERROR: 0:1: syntax error".to_string(),
        }
    );
    assert!(!error.message().is_empty());
    assert_eq!(gpu.borrow().live(), 0);
    assert_eq!(gpu.borrow().calls.len(), 6);
}

#[test]
fn init_with_an_invalid_fragment_source_releases_the_vertex_unit() {
    let gpu = RefCell::new(Gpu::new());
    let mut gl = Context::new(|call| gpu.borrow_mut().answer(call));
    let error = init(&mut gl, DEFAULT_VERTEX, BROKEN).unwrap_err();
    assert_eq!(
        error,
        PipelineError::Compile {
            stage: ShaderStage::Fragment,
            log: "ERROR: 0:1: syntax error".to_string(),
        }
    );
    assert!(!error.message().is_empty());
    let gpu = gpu.borrow();
    assert_eq!(gpu.live(), 0);
    assert_eq!(gpu.calls.len(), 11);
    assert_eq!(gpu.calls[9], GlCall::DeleteShader { shader: 2 });
    assert_eq!(gpu.calls[10], GlCall::DeleteShader { shader: 1 });
    assert!(!gpu.calls.contains(&GlCall::CreateProgram));
}

#[test]
fn init_that_fails_to_link_releases_the_program_and_both_units() {
    let gpu = RefCell::new(Gpu::new());
    let mut gl = Context::new(|call| gpu.borrow_mut().answer(call));
    let error = init(&mut gl, DEFAULT_VERTEX, UNLINKABLE).unwrap_err();
    assert_eq!(
        error,
        PipelineError::Link { log: "ERROR: undefined_symbol is not defined".to_string() }
    );
    assert_eq!(
        error.message(),
        "Unable to initialize the shader program: ERROR: undefined_symbol is not defined"
    );
    let gpu = gpu.borrow();
    assert_eq!(gpu.live(), 0);
    assert_eq!(
        gpu.calls[13..],
        [
            GlCall::ProgramInfoLog { program: 3 },
            GlCall::DeleteProgram { program: 3 },
            GlCall::DeleteShader { shader: 1 },
            GlCall::DeleteShader { shader: 2 },
        ]
    );
}

#[test]
fn assemble_without_a_program_object_releases_both_units() {
    let gpu = RefCell::new(Gpu::new());
    let mut gl = Context::new(|call| gpu.borrow_mut().answer(call));
    let vertex = load(&mut gl, ShaderStage::Vertex, DEFAULT_VERTEX).unwrap();
    let fragment = load(&mut gl, ShaderStage::Fragment, DEFAULT_FRAGMENT).unwrap();
    gpu.borrow_mut().out_of_objects = true;
    let linked = assemble(&mut gl, vertex, fragment);
    assert_eq!(linked, Err(PipelineError::Allocation));
    assert_eq!(gpu.borrow().live(), 0);
    assert_eq!(
        gpu.borrow().calls[8..],
        [
            GlCall::CreateProgram,
            GlCall::DeleteShader { shader: 1 },
            GlCall::DeleteShader { shader: 2 },
        ]
    );
}

#[test]
fn relinking_gives_an_independent_program() {
    let gpu = RefCell::new(Gpu::new());
    let mut gl = Context::new(|call| gpu.borrow_mut().answer(call));
    let first = init(&mut gl, DEFAULT_VERTEX, DEFAULT_FRAGMENT).unwrap();
    let seen = gpu.borrow().calls.len();
    let second = init(&mut gl, COLORED_VERTEX, DEFAULT_FRAGMENT).unwrap();
    assert_ne!(first, second);
    let gpu = gpu.borrow();
    assert_eq!(gpu.programs.len(), 2);
    assert!(gpu.programs[&first.handle].linked);
    assert_eq!(gpu.programs[&first.handle].attributes, vec!["aVertexPosition".to_string()]);
    assert_eq!(
        gpu.programs[&second.handle].attributes,
        vec!["aVertexPosition".to_string(), "aVertexColor".to_string()]
    );
    for call in &gpu.calls[seen..] {
        let names_first = match call {
            GlCall::AttachShader { program, .. }
            | GlCall::LinkProgram { program }
            | GlCall::LinkStatus { program }
            | GlCall::ProgramInfoLog { program }
            | GlCall::DetachShader { program, .. }
            | GlCall::DeleteProgram { program }
            | GlCall::UseProgram { program } => *program == first.handle,
            _ => false,
        };
        assert!(!names_first);
    }
}

#[test]
fn resolve_finds_the_places_of_the_default_program() {
    let gpu = RefCell::new(Gpu::new());
    let mut gl = Context::new(|call| gpu.borrow_mut().answer(call));
    let program = init(&mut gl, DEFAULT_VERTEX, DEFAULT_FRAGMENT).unwrap();
    let bindings = resolve(&mut gl, program);
    assert_eq!(bindings, Ok(cube_bindings()));
    assert_eq!(
        gpu.borrow().calls[17..],
        [
            GlCall::AttribLocation { program: 3, name: POSITION_ATTRIBUTE.to_string() },
            GlCall::AttribLocation { program: 3, name: COLOR_ATTRIBUTE.to_string() },
            GlCall::UniformLocation { program: 3, name: PROJECTION_UNIFORM.to_string() },
            GlCall::UniformLocation { program: 3, name: MODEL_VIEW_UNIFORM.to_string() },
        ]
    );
}

#[test]
fn resolve_without_a_required_name_releases_the_program() {
    let gpu = RefCell::new(Gpu::new());
    let mut gl = Context::new(|call| gpu.borrow_mut().answer(call));
    let vertex = "attribute vec4 aVertexPosition;\nuniform mat4 uProjectionMatrix;\nvoid main() {\n}\n";
    let program = init(&mut gl, vertex, DEFAULT_FRAGMENT).unwrap();
    let error = resolve(&mut gl, program).unwrap_err();
    assert_eq!(error, PipelineError::UnresolvedLocation { name: "uModelViewMatrix".to_string() });
    assert_eq!(error.message(), "Unable to find in the shader program: uModelViewMatrix");
    assert_eq!(gpu.borrow().live(), 0);
    assert_eq!(gpu.borrow().calls.last(), Some(&GlCall::DeleteProgram { program: 3 }));
}

#[test]
fn resolve_names_the_first_required_name_that_is_missing() {
    let gpu = RefCell::new(Gpu::new());
    let mut gl = Context::new(|call| gpu.borrow_mut().answer(call));
    let program = init(&mut gl, "void main() {\n}\n", DEFAULT_FRAGMENT).unwrap();
    let error = resolve(&mut gl, program).unwrap_err();
    assert_eq!(error, PipelineError::UnresolvedLocation { name: "aVertexPosition".to_string() });

    let vertex = "attribute vec4 aVertexPosition;\nuniform mat4 uModelViewMatrix;\nvoid main() {\n}\n";
    let program = init(&mut gl, vertex, DEFAULT_FRAGMENT).unwrap();
    let error = resolve(&mut gl, program).unwrap_err();
    assert_eq!(error, PipelineError::UnresolvedLocation { name: "uProjectionMatrix".to_string() });
    assert_eq!(gpu.borrow().live(), 0);
}

#[test]
fn establish_takes_the_colors_if_the_program_has_a_place_for_them() {
    let gpu = RefCell::new(Gpu::new());
    let mut gl = Context::new(|call| gpu.borrow_mut().answer(call));
    let sources = ShaderSources {
        vertex: COLORED_VERTEX.to_string(),
        fragment: DEFAULT_FRAGMENT.to_string(),
    };
    let bindings = establish(&mut gl, &sources).unwrap();
    assert_eq!(
        bindings,
        Bindings {
            program: LinkedProgram { handle: 3 },
            position: 0,
            color: Some(1),
            projection: 101,
            model_view: 100,
        }
    );
    let seen = gpu.borrow().calls.len();
    draw(&mut gl, bindings, &Cube::new(), 640, 480);
    assert_eq!(gpu.borrow().calls[seen..], expected_frame(bindings, 640, 480)[..]);
    assert_eq!(gpu.borrow().calls.len(), seen + 13);
}

#[test]
fn establish_fails_as_the_link_fails() {
    let gpu = RefCell::new(Gpu::new());
    let mut gl = Context::new(|call| gpu.borrow_mut().answer(call));
    let sources = ShaderSources { vertex: BROKEN.to_string(), fragment: BROKEN.to_string() };
    let error = establish(&mut gl, &sources).unwrap_err();
    assert_eq!(
        error,
        PipelineError::Compile {
            stage: ShaderStage::Vertex,
            log: "ERROR: 0:1: syntax error".to_string(),
        }
    );
    assert_eq!(gpu.borrow().live(), 0);
}

#[test]
fn draw_issues_the_frame_of_the_cube() {
    let gpu = RefCell::new(Gpu::new());
    let mut gl = Context::new(|call| gpu.borrow_mut().answer(call));
    let program = init(&mut gl, DEFAULT_VERTEX, DEFAULT_FRAGMENT).unwrap();
    let bindings = resolve(&mut gl, program).unwrap();
    draw(&mut gl, bindings, &Cube::new(), 800, 600);
    let gpu = gpu.borrow();
    assert_eq!(gpu.calls[21..], expected_frame(cube_bindings(), 800, 600)[..]);
    assert_eq!(gpu.calls.len(), 21 + 11);
}

#[test]
fn default_sources_mount_and_draw_thirty_six_indices_as_triangles() {
    let gpu = RefCell::new(Gpu::new());
    let gl = Context::new(|call| gpu.borrow_mut().answer(call));
    let sources = ShaderSources::default();
    assert_eq!(sources.vertex, DEFAULT_VERTEX);
    assert_eq!(sources.fragment, DEFAULT_FRAGMENT);
    let state = State::create(Cube::new());
    assert_eq!(state.phase(), Phase::Uninitialized);
    let state = state.mounted(gl, &sources, 800, 600);
    assert_eq!(state.phase(), Phase::Rendering);
    assert_eq!(state.error(), None);
    let bindings = state.bindings().unwrap();
    assert_eq!(bindings, cube_bindings());
    let gpu = gpu.borrow();
    assert_eq!(
        gpu.calls[..2],
        [
            GlCall::ClearColor { red: 0, green: 0, blue: 0, alpha: 1 },
            GlCall::Clear { color_buffer: true, depth_buffer: false },
        ]
    );
    assert_eq!(gpu.calls.len(), 2 + 17 + 4 + 11);
    match gpu.calls.last().unwrap() {
        GlCall::DrawTriangles { indices } => assert_eq!(indices.len(), 36),
        other => panic!("the frame ends with {:?}", other),
    }
    assert_eq!(gpu.programs.len(), 1);
    assert_eq!(gpu.shaders.len(), 0);
}

#[test]
fn session_goes_through_its_phases() {
    let gpu = RefCell::new(Gpu::new());
    let gl = Context::new(|call| gpu.borrow_mut().answer(call));
    let state = State::create(Cube::new());
    assert_eq!(state.phase(), Phase::Uninitialized);
    assert_eq!(state.bindings(), None);

    let state = state.render(800, 600);
    assert_eq!(state.phase(), Phase::Uninitialized);
    let state = state.prepare(&ShaderSources::default());
    assert_eq!(state.phase(), Phase::Uninitialized);
    assert_eq!(gpu.borrow().calls.len(), 0);

    let state = state.acquire(gl);
    assert_eq!(state.phase(), Phase::ContextAcquired);
    assert_eq!(gpu.borrow().calls.len(), 2);
    let state = state.render(800, 600);
    assert_eq!(state.phase(), Phase::ContextAcquired);
    assert_eq!(gpu.borrow().calls.len(), 2);

    let state = state.prepare(&ShaderSources::default());
    assert_eq!(state.phase(), Phase::ProgramReady);
    assert_eq!(state.bindings(), Some(cube_bindings()));
    assert_eq!(gpu.borrow().calls.len(), 23);

    let state = state.render(800, 600);
    assert_eq!(state.phase(), Phase::Rendering);
    let state = state.render(800, 600);
    assert_eq!(state.phase(), Phase::Rendering);
    assert_eq!(gpu.borrow().calls.len(), 23 + 11 + 11);

    let state = state.prepare(&ShaderSources::default());
    assert_eq!(state.phase(), Phase::Rendering);
    assert_eq!(gpu.borrow().calls.len(), 45);

    let state = state.teardown();
    assert_eq!(state.phase(), Phase::ContextAcquired);
    assert_eq!(gpu.borrow().calls.last(), Some(&GlCall::DeleteProgram { program: 3 }));
    assert_eq!(gpu.borrow().live(), 0);
    let state = state.teardown();
    assert_eq!(state.phase(), Phase::ContextAcquired);
    assert_eq!(gpu.borrow().calls.len(), 46);
}

#[test]
fn failed_setup_ends_the_session_and_draws_nothing() {
    let gpu = RefCell::new(Gpu::new());
    let gl = Context::new(|call| gpu.borrow_mut().answer(call));
    let sources =
        ShaderSources { vertex: DEFAULT_VERTEX.to_string(), fragment: BROKEN.to_string() };
    let state = State::create(Cube::new()).mounted(gl, &sources, 800, 600);
    assert_eq!(state.phase(), Phase::Failed);
    assert_eq!(state.bindings(), None);
    assert_eq!(
        state.error(),
        Some(&PipelineError::Compile {
            stage: ShaderStage::Fragment,
            log: "ERROR: 0:1: syntax error".to_string(),
        })
    );
    let seen = gpu.borrow().calls.len();
    assert_eq!(seen, 2 + 11);
    assert_eq!(gpu.borrow().live(), 0);

    let state = state.render(800, 600);
    let state = state.prepare(&ShaderSources::default());
    let state = state.teardown();
    assert_eq!(state.phase(), Phase::Failed);
    assert_eq!(gpu.borrow().calls.len(), seen);
}

#[test]
fn a_mounted_session_is_not_mounted_again() {
    let gpu = RefCell::new(Gpu::new());
    let other = RefCell::new(Gpu::new());
    let state = State::create(Cube::new()).mounted(
        Context::new(driver_of(&gpu)),
        &ShaderSources::default(),
        800,
        600,
    );
    let seen = gpu.borrow().calls.len();
    let state = state.mounted(
        Context::new(driver_of(&other)),
        &ShaderSources::default(),
        400,
        600,
    );
    assert_eq!(state.phase(), Phase::Rendering);
    assert_eq!(gpu.borrow().calls.len(), seen);
    assert_eq!(other.borrow().calls.len(), 0);
}

#[test]
fn resize_changes_the_projection_and_nothing_else() {
    let gpu = RefCell::new(Gpu::new());
    let gl = Context::new(|call| gpu.borrow_mut().answer(call));
    let state = State::create(Cube::new()).mounted(gl, &ShaderSources::default(), 800, 600);
    let _state = state.render(400, 600);
    let gpu = gpu.borrow();
    let wide = &gpu.calls[23..34];
    let narrow = &gpu.calls[34..45];
    assert_eq!(wide, &expected_frame(cube_bindings(), 800, 600)[..]);
    assert_eq!(narrow, &expected_frame(cube_bindings(), 400, 600)[..]);
    for k in 0..11 {
        if k == 8 {
            assert_eq!(
                wide[k],
                GlCall::UniformPerspective {
                    location: 101,
                    transpose: false,
                    projection: Perspective {
                        fov_degrees: 45,
                        width: 800,
                        height: 600,
                        near_tenths: 1,
                        far_tenths: 1000,
                    },
                }
            );
            assert_eq!(
                narrow[k],
                GlCall::UniformPerspective {
                    location: 101,
                    transpose: false,
                    projection: Perspective {
                        fov_degrees: 45,
                        width: 400,
                        height: 600,
                        near_tenths: 1,
                        far_tenths: 1000,
                    },
                }
            );
        } else {
            assert_eq!(wide[k], narrow[k]);
        }
    }
    assert_eq!(
        narrow[9],
        GlCall::UniformMatrix {
            location: 100,
            transpose: false,
            matrix: vec![1, 0, 0, 0, 0, 1, 0, 0, 0, 0, 1, 0, 0, 0, -6, 1],
        }
    );
    assert_eq!(gpu.programs.len(), 1);
    assert_eq!(gpu.next, 4);
}

#[test]
fn replies_are_read_for_what_they_are() {
    assert_eq!(GlReply::Id(Some(7)).id(), Some(7));
    assert_eq!(GlReply::Id(None).id(), None);
    assert_eq!(GlReply::Flag(true).id(), None);
    assert!(GlReply::Flag(true).affirms());
    assert!(!GlReply::Flag(false).affirms());
    assert!(!GlReply::Id(Some(1)).affirms());
    assert!(!GlReply::Nothing.affirms());
    assert_eq!(GlReply::Log(Some("text".to_string())).into_log(), "text");
    assert_eq!(GlReply::Log(None).into_log(), "");
    assert_eq!(GlReply::Nothing.into_log(), "");
}

#[test]
fn context_hands_each_call_to_the_driver() {
    let seen = RefCell::new(Vec::new());
    let mut gl = Context::new(|call: GlCall| {
        seen.borrow_mut().push(call);
        GlReply::Flag(true)
    });
    assert_eq!(gl.call(GlCall::EnableDepthTest), GlReply::Flag(true));
    assert_eq!(gl.call(GlCall::CreateProgram), GlReply::Flag(true));
    assert_eq!(*seen.borrow(), vec![GlCall::EnableDepthTest, GlCall::CreateProgram]);
}
