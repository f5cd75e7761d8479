//! The graphics context as this library sees it: a driver that takes one call
//! at a time and answers each, and the record of what has passed between the
//! two.
//!
//! Objects of the driver (shaders, programs, locations) are named by numbers
//! that the driver hands out. Colours, depths, coordinates and matrix entries
//! are whole numbers; the driver takes each as the float of the same value.

use vstd::prelude::*;

verus! {

/// The stage of the pipeline that a shader unit runs in.
#[derive(Clone, Copy, Debug, PartialEq, Eq, Structural)]
pub enum ShaderStage {
    Vertex,
    Fragment,
}

/// What a perspective projection is made from. The matrix itself is built
/// where the call is carried out: its entries are no whole numbers.
#[derive(Clone, Copy, Debug, PartialEq, Eq, Structural)]
pub struct Perspective {
    /// The vertical field of view, in degrees.
    pub fov_degrees: u32,
    /// The width of the canvas, in pixels. The aspect ratio is `width / height`.
    pub width: u32,
    /// The height of the canvas, in pixels.
    pub height: u32,
    /// The distance of the near plane, in tenths of a unit.
    pub near_tenths: u32,
    /// The distance of the far plane, in tenths of a unit.
    pub far_tenths: u32,
}

/// One call into the driver.
#[derive(Clone, Debug, PartialEq, Eq)]
pub enum GlCall {
    /// Allocate a shader object for `stage`. Answered by `Id`.
    CreateShader { stage: ShaderStage },
    /// Upload the source text of a shader.
    ShaderSource { shader: u32, source: String },
    /// Compile the uploaded source.
    CompileShader { shader: u32 },
    /// Ask whether the last compilation succeeded. Answered by `Flag`.
    CompileStatus { shader: u32 },
    /// Ask for the diagnostics of the last compilation. Answered by `Log`.
    ShaderInfoLog { shader: u32 },
    /// Release a shader object.
    DeleteShader { shader: u32 },
    /// Allocate a program object. Answered by `Id`.
    CreateProgram,
    /// Attach a compiled shader to a program.
    AttachShader { program: u32, shader: u32 },
    /// Link the attached shaders.
    LinkProgram { program: u32 },
    /// Ask whether the last link succeeded. Answered by `Flag`.
    LinkStatus { program: u32 },
    /// Ask for the diagnostics of the last link. Answered by `Log`.
    ProgramInfoLog { program: u32 },
    /// Detach a shader from a program.
    DetachShader { program: u32, shader: u32 },
    /// Release a program object.
    DeleteProgram { program: u32 },
    /// Ask where a vertex attribute of a linked program lives. Answered by `Id`.
    AttribLocation { program: u32, name: String },
    /// Ask where a uniform of a linked program lives. Answered by `Id`.
    UniformLocation { program: u32, name: String },
    /// Set the colour that clearing fills the colour buffer with.
    ClearColor { red: i32, green: i32, blue: i32, alpha: i32 },
    /// Set the depth that clearing fills the depth buffer with.
    ClearDepth { depth: i32 },
    /// Turn depth testing on.
    EnableDepthTest,
    /// Let a fragment pass the depth test when it is as near as what is there,
    /// or nearer.
    DepthFuncLessOrEqual,
    /// Clear the buffers named.
    Clear { color_buffer: bool, depth_buffer: bool },
    /// Bind a buffer that holds `data` to a vertex attribute, which takes
    /// `components` numbers per vertex.
    AttributeData {
        location: u32,
        data: Vec<i32>,
        components: u32,
        normalized: bool,
        stride: u32,
        offset: u32,
    },
    /// Let a vertex attribute read from the buffer bound to it.
    EnableAttribute { location: u32 },
    /// Make a linked program the one that draws.
    UseProgram { program: u32 },
    /// Set a 4x4 matrix uniform to a perspective projection.
    UniformPerspective { location: u32, transpose: bool, projection: Perspective },
    /// Set a 4x4 matrix uniform to the 16 entries given, column after column.
    UniformMatrix { location: u32, transpose: bool, matrix: Vec<i32> },
    /// Draw triangles from the bound attributes: three indices per triangle.
    DrawTriangles { indices: Vec<u8> },
}

/// What a `GlCall` says, with texts and buffers as sequences.
pub enum GlCallView {
    CreateShader { stage: ShaderStage },
    ShaderSource { shader: u32, source: Seq<char> },
    CompileShader { shader: u32 },
    CompileStatus { shader: u32 },
    ShaderInfoLog { shader: u32 },
    DeleteShader { shader: u32 },
    CreateProgram,
    AttachShader { program: u32, shader: u32 },
    LinkProgram { program: u32 },
    LinkStatus { program: u32 },
    ProgramInfoLog { program: u32 },
    DetachShader { program: u32, shader: u32 },
    DeleteProgram { program: u32 },
    AttribLocation { program: u32, name: Seq<char> },
    UniformLocation { program: u32, name: Seq<char> },
    ClearColor { red: i32, green: i32, blue: i32, alpha: i32 },
    ClearDepth { depth: i32 },
    EnableDepthTest,
    DepthFuncLessOrEqual,
    Clear { color_buffer: bool, depth_buffer: bool },
    AttributeData {
        location: u32,
        data: Seq<i32>,
        components: u32,
        normalized: bool,
        stride: u32,
        offset: u32,
    },
    EnableAttribute { location: u32 },
    UseProgram { program: u32 },
    UniformPerspective { location: u32, transpose: bool, projection: Perspective },
    UniformMatrix { location: u32, transpose: bool, matrix: Seq<i32> },
    DrawTriangles { indices: Seq<u8> },
}

impl View for GlCall {
    type V = GlCallView;

    open spec fn view(&self) -> GlCallView {
        match *self {
            GlCall::CreateShader { stage } => GlCallView::CreateShader { stage },
            GlCall::ShaderSource { shader, source } => GlCallView::ShaderSource {
                shader,
                source: source@,
            },
            GlCall::CompileShader { shader } => GlCallView::CompileShader { shader },
            GlCall::CompileStatus { shader } => GlCallView::CompileStatus { shader },
            GlCall::ShaderInfoLog { shader } => GlCallView::ShaderInfoLog { shader },
            GlCall::DeleteShader { shader } => GlCallView::DeleteShader { shader },
            GlCall::CreateProgram => GlCallView::CreateProgram,
            GlCall::AttachShader { program, shader } => GlCallView::AttachShader { program, shader },
            GlCall::LinkProgram { program } => GlCallView::LinkProgram { program },
            GlCall::LinkStatus { program } => GlCallView::LinkStatus { program },
            GlCall::ProgramInfoLog { program } => GlCallView::ProgramInfoLog { program },
            GlCall::DetachShader { program, shader } => GlCallView::DetachShader { program, shader },
            GlCall::DeleteProgram { program } => GlCallView::DeleteProgram { program },
            GlCall::AttribLocation { program, name } => GlCallView::AttribLocation {
                program,
                name: name@,
            },
            GlCall::UniformLocation { program, name } => GlCallView::UniformLocation {
                program,
                name: name@,
            },
            GlCall::ClearColor { red, green, blue, alpha } => GlCallView::ClearColor {
                red,
                green,
                blue,
                alpha,
            },
            GlCall::ClearDepth { depth } => GlCallView::ClearDepth { depth },
            GlCall::EnableDepthTest => GlCallView::EnableDepthTest,
            GlCall::DepthFuncLessOrEqual => GlCallView::DepthFuncLessOrEqual,
            GlCall::Clear { color_buffer, depth_buffer } => GlCallView::Clear {
                color_buffer,
                depth_buffer,
            },
            GlCall::AttributeData { location, data, components, normalized, stride, offset } =>
                GlCallView::AttributeData {
                    location,
                    data: data@,
                    components,
                    normalized,
                    stride,
                    offset,
                },
            GlCall::EnableAttribute { location } => GlCallView::EnableAttribute { location },
            GlCall::UseProgram { program } => GlCallView::UseProgram { program },
            GlCall::UniformPerspective { location, transpose, projection } =>
                GlCallView::UniformPerspective { location, transpose, projection },
            GlCall::UniformMatrix { location, transpose, matrix } => GlCallView::UniformMatrix {
                location,
                transpose,
                matrix: matrix@,
            },
            GlCall::DrawTriangles { indices } => GlCallView::DrawTriangles { indices: indices@ },
        }
    }
}

/// What the driver answers to a call.
#[derive(Clone, Debug, PartialEq, Eq)]
pub enum GlReply {
    /// The call asks for no answer.
    Nothing,
    /// The number of the object or location asked for, if there is one.
    Id(Option<u32>),
    /// The status asked for.
    Flag(bool),
    /// The diagnostics asked for, if the driver has any.
    Log(Option<String>),
}

/// What a `GlReply` says, with texts as sequences.
pub enum GlReplyView {
    Nothing,
    Id(Option<u32>),
    Flag(bool),
    Log(Option<Seq<char>>),
}

impl View for GlReply {
    type V = GlReplyView;

    open spec fn view(&self) -> GlReplyView {
        match *self {
            GlReply::Nothing => GlReplyView::Nothing,
            GlReply::Id(id) => GlReplyView::Id(id),
            GlReply::Flag(flag) => GlReplyView::Flag(flag),
            GlReply::Log(Some(text)) => GlReplyView::Log(Some(text@)),
            GlReply::Log(None) => GlReplyView::Log(None),
        }
    }
}

/// The number that a reply names: that of an `Id` which holds one.
pub open spec fn reply_id(reply: GlReplyView) -> Option<u32> {
    match reply {
        GlReplyView::Id(id) => id,
        _ => None,
    }
}

/// Whether a reply affirms what was asked: only `Flag(true)` does.
pub open spec fn reply_affirms(reply: GlReplyView) -> bool {
    reply == GlReplyView::Flag(true)
}

/// The diagnostics that a reply carries: the text of a `Log` which holds one,
/// and no text otherwise.
pub open spec fn reply_log(reply: GlReplyView) -> Seq<char> {
    match reply {
        GlReplyView::Log(Some(text)) => text,
        _ => Seq::empty(),
    }
}

impl GlReply {
    /// The number that this reply names, if it names one.
    pub fn id(&self) -> (id: Option<u32>)
        ensures
            id == reply_id(self@),
    {
        match self {
            GlReply::Id(id) => *id,
            _ => None,
        }
    }

    /// Whether this reply affirms what was asked.
    pub fn affirms(&self) -> (yes: bool)
        ensures
            yes == reply_affirms(self@),
    {
        match self {
            GlReply::Flag(flag) => *flag,
            _ => false,
        }
    }

    /// The diagnostics that this reply carries.
    pub fn into_log(self) -> (text: String)
        ensures
            text@ == reply_log(self@),
    {
        match self {
            GlReply::Log(Some(text)) => text,
            _ => String::new(),
        }
    }
}

/// One call and the answer it got.
pub struct Exchange {
    pub call: GlCallView,
    pub reply: GlReplyView,
}

/// The calls of a run, in order.
pub open spec fn calls_of(run: Seq<Exchange>) -> Seq<GlCallView> {
    Seq::new(run.len(), |i: int| run[i].call)
}

/// The answers of a run, in order.
pub open spec fn replies_of(run: Seq<Exchange>) -> Seq<GlReplyView> {
    Seq::new(run.len(), |i: int| run[i].reply)
}

/// Whether `call` is about the shader object `id`.
pub open spec fn names_shader(call: GlCallView, id: u32) -> bool {
    match call {
        GlCallView::ShaderSource { shader, .. } => shader == id,
        GlCallView::CompileShader { shader } => shader == id,
        GlCallView::CompileStatus { shader } => shader == id,
        GlCallView::ShaderInfoLog { shader } => shader == id,
        GlCallView::DeleteShader { shader } => shader == id,
        GlCallView::AttachShader { shader, .. } => shader == id,
        GlCallView::DetachShader { shader, .. } => shader == id,
        _ => false,
    }
}

/// Whether `call` is about the program object `id`.
pub open spec fn names_program(call: GlCallView, id: u32) -> bool {
    match call {
        GlCallView::AttachShader { program, .. } => program == id,
        GlCallView::LinkProgram { program } => program == id,
        GlCallView::LinkStatus { program } => program == id,
        GlCallView::ProgramInfoLog { program } => program == id,
        GlCallView::DetachShader { program, .. } => program == id,
        GlCallView::DeleteProgram { program } => program == id,
        GlCallView::AttribLocation { program, .. } => program == id,
        GlCallView::UniformLocation { program, .. } => program == id,
        GlCallView::UseProgram { program } => program == id,
        _ => false,
    }
}

/// Whether `call` builds or releases a shader or a program.
pub open spec fn builds_or_releases(call: GlCallView) -> bool {
    ||| call is CreateShader
    ||| call is ShaderSource
    ||| call is CompileShader
    ||| call is DeleteShader
    ||| call is CreateProgram
    ||| call is AttachShader
    ||| call is LinkProgram
    ||| call is DetachShader
    ||| call is DeleteProgram
}

/// Whether the driver hands out the shader object `id` in this exchange.
pub open spec fn obtains_shader(exchange: Exchange, id: u32) -> bool {
    exchange.call is CreateShader && reply_id(exchange.reply) == Some(id)
}

/// Whether the driver hands out the program object `id` in this exchange.
pub open spec fn obtains_program(exchange: Exchange, id: u32) -> bool {
    exchange.call is CreateProgram && reply_id(exchange.reply) == Some(id)
}

/// Whether the driver gives what the call asks for: an object where one is to
/// be allocated, a yes where a status is queried.
pub open spec fn accepted(exchange: Exchange) -> bool {
    match exchange.call {
        GlCallView::CreateShader { .. } => reply_id(exchange.reply) is Some,
        GlCallView::CreateProgram => reply_id(exchange.reply) is Some,
        GlCallView::CompileStatus { .. } => reply_affirms(exchange.reply),
        GlCallView::LinkStatus { .. } => reply_affirms(exchange.reply),
        _ => true,
    }
}

/// By how many this exchange changes the number of shader objects that are
/// allocated and not released.
pub open spec fn shader_change(exchange: Exchange) -> int {
    match exchange.call {
        GlCallView::CreateShader { .. } => if reply_id(exchange.reply) is Some {
            1
        } else {
            0
        },
        GlCallView::DeleteShader { .. } => -1,
        _ => 0,
    }
}

/// By how many this exchange changes the number of program objects that are
/// allocated and not released.
pub open spec fn program_change(exchange: Exchange) -> int {
    match exchange.call {
        GlCallView::CreateProgram => if reply_id(exchange.reply) is Some {
            1
        } else {
            0
        },
        GlCallView::DeleteProgram { .. } => -1,
        _ => 0,
    }
}

/// The shader objects that the first `n` exchanges of `run` leave allocated:
/// how many more they allocate than they release.
pub open spec fn shaders_held(run: Seq<Exchange>, n: int) -> int
    decreases n,
{
    if n <= 0 {
        0
    } else {
        shaders_held(run, n - 1) + shader_change(run[n - 1])
    }
}

/// The program objects that the first `n` exchanges of `run` leave allocated:
/// how many more they allocate than they release.
pub open spec fn programs_held(run: Seq<Exchange>, n: int) -> int
    decreases n,
{
    if n <= 0 {
        0
    } else {
        programs_held(run, n - 1) + program_change(run[n - 1])
    }
}

/// What a run holds after `n + m` exchanges is what it holds after `n`, and
/// what the `m` after those add to it.
pub proof fn held_is_additive(run: Seq<Exchange>, n: int, m: int)
    requires
        0 <= n,
        0 <= m,
        n + m <= run.len(),
    ensures
        shaders_held(run, n + m) == shaders_held(run, n) + shaders_held(run.skip(n), m),
        programs_held(run, n + m) == programs_held(run, n) + programs_held(run.skip(n), m),
    decreases m,
{
    if m > 0 {
        held_is_additive(run, n, m - 1);
        assert(run.skip(n)[m - 1] == run[n + m - 1]);
    }
}

/// What the first `n` exchanges hold is the same in two runs that begin with
/// the same `n` exchanges.
pub proof fn held_follows_the_exchanges(first: Seq<Exchange>, second: Seq<Exchange>, n: int)
    requires
        0 <= n <= first.len(),
        n <= second.len(),
        forall|i: int| 0 <= i < n ==> first[i] == second[i],
    ensures
        shaders_held(first, n) == shaders_held(second, n),
        programs_held(first, n) == programs_held(second, n),
    decreases n,
{
    if n > 0 {
        held_follows_the_exchanges(first, second, n - 1);
    }
}

/// A graphics context: a driver, and the record of every call made through
/// this context with the answer it got.
pub struct Context<F: Fn(GlCall) -> GlReply> {
    driver: F,
    trace: Ghost<Seq<Exchange>>,
}

impl<F: Fn(GlCall) -> GlReply> Context<F> {
    #[verifier::type_invariant]
    spec fn driver_takes_every_call(&self) -> bool {
        forall|call: GlCall| call_requires(self.driver, (call,))
    }

    /// The driver behind this context.
    pub closed spec fn driver(&self) -> F {
        self.driver
    }

    /// Every exchange so far, oldest first.
    pub closed spec fn trace(&self) -> Seq<Exchange> {
        self.trace@
    }

    /// This context is `before` after some more exchanges.
    pub open spec fn continues(&self, before: Self) -> bool {
        &&& self.driver() == before.driver()
        &&& before.trace().is_prefix_of(self.trace())
    }

    /// The exchanges that this context has seen and `before` has not.
    pub open spec fn run_since(&self, before: Self) -> Seq<Exchange> {
        self.trace().skip(before.trace().len() as int)
    }

    /// A context on `driver`, with nothing recorded yet. The driver must take
    /// every call.
    pub fn new(driver: F) -> (gl: Self)
        requires
            forall|call: GlCall| call_requires(driver, (call,)),
        ensures
            gl.driver() == driver,
            gl.trace() == Seq::<Exchange>::empty(),
    {
        Context { driver, trace: Ghost(Seq::empty()) }
    }

    /// Hands `call` to the driver and records it with the answer.
    pub fn call(&mut self, call: GlCall) -> (reply: GlReply)
        ensures
            final(self).driver() == old(self).driver(),
            final(self).trace() == old(self).trace().push(Exchange { call: call@, reply: reply@ }),
            call_ensures(old(self).driver(), (call,), reply),
    {
        proof {
            use_type_invariant(&*self);
        }
        let ghost asked = call@;
        let reply = (self.driver)(call);
        proof {
            self.trace@ = self.trace@.push(Exchange { call: asked, reply: reply@ });
        }
        reply
    }
}

} // verus!
