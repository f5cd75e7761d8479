//! The frame renderer: one render session on one graphics context, from the
//! acquisition of the context to frame after frame.
//!
//! A session is `Uninitialized` until it is given a context, has
//! `ContextAcquired` until its program is linked and its locations are
//! resolved, has its `ProgramReady` until the first frame, and is `Rendering`
//! from then on. A failure during setup ends it: it is `Failed` for good and
//! draws nothing.

use crate::error::{PipelineError, PipelineErrorView};
use crate::gl::{
    builds_or_releases, calls_of, held_follows_the_exchanges, held_is_additive, programs_held,
    replies_of, reply_id, shaders_held, Context, Exchange, GlCall, GlCallView, GlReply,
    GlReplyView, Perspective,
};
use crate::models::{Model, COLOR_COMPONENTS, POSITION_COMPONENTS};
use crate::shader::{
    init, link_accounts_for_every_object, link_calls, link_ignores_later_replies, link_outcome,
    link_reads_a_prefix, outcome_view, LinkedProgram,
};
use crate::transform::{model_view, model_view_matrix, perspective, projection_for};
use vstd::prelude::*;
use vstd::string::StringExecFns;

verus! {

/// The vertex shader that is used when the host supplies none.
pub const DEFAULT_VERTEX: &'static str =
    "\n    attribute vec4 aVertexPosition;\n\n    uniform mat4 uModelViewMatrix;\n    uniform mat4 uProjectionMatrix;\n\n    void main() {\n      gl_Position = uProjectionMatrix * uModelViewMatrix * aVertexPosition;\n    }\n";

/// The fragment shader that is used when the host supplies none.
pub const DEFAULT_FRAGMENT: &'static str =
    "precision mediump float;\nvarying vec3 vColor;\nvoid main() {\n    gl_FragColor = vec4(1.0, 1.0, 1.0, 1.0);\n}\n";

/// The vertex attribute that takes the positions. A program must have it.
pub const POSITION_ATTRIBUTE: &'static str = "aVertexPosition";

/// The vertex attribute that takes the colours. A program may do without.
pub const COLOR_ATTRIBUTE: &'static str = "aVertexColor";

/// The uniform that takes the projection matrix. A program must have it.
pub const PROJECTION_UNIFORM: &'static str = "uProjectionMatrix";

/// The uniform that takes the model-view matrix. A program must have it.
pub const MODEL_VIEW_UNIFORM: &'static str = "uModelViewMatrix";

/// The sources of the two shader units of a program.
#[derive(Clone, Debug, PartialEq, Eq)]
pub struct ShaderSources {
    pub vertex: String,
    pub fragment: String,
}

impl Default for ShaderSources {
    /// The embedded sources.
    fn default() -> (sources: Self)
        ensures
            sources.vertex@ == DEFAULT_VERTEX@,
            sources.fragment@ == DEFAULT_FRAGMENT@,
    {
        ShaderSources {
            vertex: String::from_str(DEFAULT_VERTEX),
            fragment: String::from_str(DEFAULT_FRAGMENT),
        }
    }
}

/// A linked program with the places where it takes its inputs.
#[derive(Clone, Copy, Debug, PartialEq, Eq)]
pub struct Bindings {
    pub program: LinkedProgram,
    /// Where the positions go.
    pub position: u32,
    /// Where the colours go, if the program takes colours.
    pub color: Option<u32>,
    /// Where the projection matrix goes.
    pub projection: u32,
    /// Where the model-view matrix goes.
    pub model_view: u32,
}

/// How far a render session has come.
#[derive(Clone, Copy, Debug, PartialEq, Eq, Structural)]
pub enum Phase {
    Uninitialized,
    ContextAcquired,
    ProgramReady,
    Rendering,
    Failed,
}

/// The number of exchanges that it takes to make a program that the driver
/// accepts.
pub open spec fn linked_in() -> int {
    17
}

/// What the location queries come to, given the answers of the driver: the
/// bindings, or the first name that the program must have and has not.
pub open spec fn resolve_outcome(program: LinkedProgram, replies: Seq<GlReplyView>) -> Result<
    Bindings,
    PipelineErrorView,
> {
    match reply_id(replies[0]) {
        None => Err(PipelineErrorView::UnresolvedLocation { name: POSITION_ATTRIBUTE@ }),
        Some(position) => match reply_id(replies[2]) {
            None => Err(PipelineErrorView::UnresolvedLocation { name: PROJECTION_UNIFORM@ }),
            Some(projection) => match reply_id(replies[3]) {
                None => Err(PipelineErrorView::UnresolvedLocation { name: MODEL_VIEW_UNIFORM@ }),
                Some(model_view) => Ok(
                    Bindings {
                        program,
                        position,
                        color: reply_id(replies[1]),
                        projection,
                        model_view,
                    },
                ),
            },
        },
    }
}

/// The calls that resolve the locations of a linked program, given the answers
/// to them: the four queries, and the release of the program if a name that it
/// must have is not found.
pub open spec fn resolve_calls(program: LinkedProgram, replies: Seq<GlReplyView>) -> Seq<
    GlCallView,
> {
    let queries = seq![
        GlCallView::AttribLocation { program: program.handle, name: POSITION_ATTRIBUTE@ },
        GlCallView::AttribLocation { program: program.handle, name: COLOR_ATTRIBUTE@ },
        GlCallView::UniformLocation { program: program.handle, name: PROJECTION_UNIFORM@ },
        GlCallView::UniformLocation { program: program.handle, name: MODEL_VIEW_UNIFORM@ },
    ];
    if resolve_outcome(program, replies) is Ok {
        queries
    } else {
        queries + seq![GlCallView::DeleteProgram { program: program.handle }]
    }
}

/// `run` resolves the locations of `program`, and ends in `outcome`.
pub open spec fn resolve_run(
    program: LinkedProgram,
    run: Seq<Exchange>,
    outcome: Result<Bindings, PipelineErrorView>,
) -> bool {
    &&& calls_of(run) == resolve_calls(program, replies_of(run))
    &&& outcome == resolve_outcome(program, replies_of(run))
}

/// The calls that greet a new context: the canvas is cleared to black.
pub open spec fn acquire_calls() -> Seq<GlCallView> {
    seq![
        GlCallView::ClearColor { red: 0, green: 0, blue: 0, alpha: 1 },
        GlCallView::Clear { color_buffer: true, depth_buffer: false },
    ]
}

/// The calls that set a session up, given the answers to them: the program is
/// made, and if that succeeds its locations are resolved.
pub open spec fn prepare_calls(
    vertex_source: Seq<char>,
    fragment_source: Seq<char>,
    replies: Seq<GlReplyView>,
) -> Seq<GlCallView> {
    let link = link_calls(vertex_source, fragment_source, replies);
    match link_outcome(replies) {
        Err(_) => link,
        Ok(program) => link + resolve_calls(program, replies.skip(linked_in())),
    }
}

/// What setting a session up comes to, given the answers of the driver.
pub open spec fn prepare_outcome(replies: Seq<GlReplyView>) -> Result<Bindings, PipelineErrorView> {
    match link_outcome(replies) {
        Err(error) => Err(error),
        Ok(program) => resolve_outcome(program, replies.skip(linked_in())),
    }
}

/// The calls that bind the vertex data of a frame: the positions, three per
/// vertex, and the colours, four per vertex, if the program takes colours.
/// The data is not normalized and tightly packed.
pub open spec fn vertex_calls(bindings: Bindings, positions: Seq<i32>, colors: Seq<i32>) -> Seq<
    GlCallView,
> {
    let position = seq![
        GlCallView::AttributeData {
            location: bindings.position,
            data: positions,
            components: POSITION_COMPONENTS,
            normalized: false,
            stride: 0,
            offset: 0,
        },
        GlCallView::EnableAttribute { location: bindings.position },
    ];
    match bindings.color {
        None => position,
        Some(color) => position + seq![
            GlCallView::AttributeData {
                location: color,
                data: colors,
                components: COLOR_COMPONENTS,
                normalized: false,
                stride: 0,
                offset: 0,
            },
            GlCallView::EnableAttribute { location: color },
        ],
    }
}

/// The calls of one frame on a canvas of `width` by `height` pixels.
///
/// The canvas is cleared to black and the depth buffer to the far end, with
/// the depth test on. The vertex data is bound, the program is put to use,
/// the projection for the canvas and the model-view matrix are uploaded as
/// they are, not transposed, and the mesh is drawn as triangles.
pub open spec fn frame_calls(
    bindings: Bindings,
    positions: Seq<i32>,
    colors: Seq<i32>,
    indices: Seq<u8>,
    width: u32,
    height: u32,
) -> Seq<GlCallView> {
    seq![
        GlCallView::ClearColor { red: 0, green: 0, blue: 0, alpha: 1 },
        GlCallView::ClearDepth { depth: 1 },
        GlCallView::EnableDepthTest,
        GlCallView::DepthFuncLessOrEqual,
        GlCallView::Clear { color_buffer: true, depth_buffer: true },
    ] + vertex_calls(bindings, positions, colors) + seq![
        GlCallView::UseProgram { program: bindings.program.handle },
        GlCallView::UniformPerspective {
            location: bindings.projection,
            transpose: false,
            projection: projection_for(width, height),
        },
        GlCallView::UniformMatrix {
            location: bindings.model_view,
            transpose: false,
            matrix: model_view(),
        },
        GlCallView::DrawTriangles { indices },
    ]
}

/// The calls that mount a session, given the answers to them: the context is
/// greeted, the session is set up, and if that succeeds the first frame is
/// drawn.
pub open spec fn mount_calls(
    vertex_source: Seq<char>,
    fragment_source: Seq<char>,
    positions: Seq<i32>,
    colors: Seq<i32>,
    indices: Seq<u8>,
    width: u32,
    height: u32,
    replies: Seq<GlReplyView>,
) -> Seq<GlCallView> {
    let setup = acquire_calls() + prepare_calls(
        vertex_source,
        fragment_source,
        replies.skip(greeted_in()),
    );
    match prepare_outcome(replies.skip(greeted_in())) {
        Err(_) => setup,
        Ok(bindings) => setup + frame_calls(bindings, positions, colors, indices, width, height),
    }
}

/// The number of exchanges that it takes to greet a new context.
pub open spec fn greeted_in() -> int {
    2
}

/// Resolves the places where a linked program takes its inputs.
///
/// The positions and both matrices must have a place; the colours need none.
/// On failure the program is released and the error names what has no place.
pub fn resolve<F: Fn(GlCall) -> GlReply>(gl: &mut Context<F>, program: LinkedProgram) -> (bindings:
    Result<Bindings, PipelineError>)
    ensures
        final(gl).continues(*old(gl)),
        resolve_run(program, final(gl).run_since(*old(gl)), outcome_view(bindings)),
{
    let ghost before = gl.trace();
    let position = gl.call(
        GlCall::AttribLocation { program: program.handle, name: String::from_str(POSITION_ATTRIBUTE) },
    ).id();
    let color = gl.call(
        GlCall::AttribLocation { program: program.handle, name: String::from_str(COLOR_ATTRIBUTE) },
    ).id();
    let projection = gl.call(
        GlCall::UniformLocation {
            program: program.handle,
            name: String::from_str(PROJECTION_UNIFORM),
        },
    ).id();
    let model_view = gl.call(
        GlCall::UniformLocation {
            program: program.handle,
            name: String::from_str(MODEL_VIEW_UNIFORM),
        },
    ).id();
    let missing = match (position, projection, model_view) {
        (Some(position), Some(projection), Some(model_view)) => {
            proof {
                let run = gl.trace().skip(before.len() as int);
                assert(calls_of(run) =~= resolve_calls(program, replies_of(run)));
            }
            return Ok(Bindings { program, position, color, projection, model_view });
        },
        (None, _, _) => POSITION_ATTRIBUTE,
        (_, None, _) => PROJECTION_UNIFORM,
        _ => MODEL_VIEW_UNIFORM,
    };
    gl.call(GlCall::DeleteProgram { program: program.handle });
    proof {
        let run = gl.trace().skip(before.len() as int);
        assert(calls_of(run) =~= resolve_calls(program, replies_of(run)));
    }
    Err(PipelineError::UnresolvedLocation { name: String::from_str(missing) })
}

/// Draws one frame of `model` on a canvas of `width` by `height` pixels.
pub fn draw<M: Model, F: Fn(GlCall) -> GlReply>(
    gl: &mut Context<F>,
    bindings: Bindings,
    model: &M,
    width: u32,
    height: u32,
)
    ensures
        final(gl).continues(*old(gl)),
        calls_of(final(gl).run_since(*old(gl))) == frame_calls(
            bindings,
            model.position_data(),
            model.color_data(),
            model.index_data(),
            width,
            height,
        ),
{
    let ghost before = gl.trace();
    gl.call(GlCall::ClearColor { red: 0, green: 0, blue: 0, alpha: 1 });
    gl.call(GlCall::ClearDepth { depth: 1 });
    gl.call(GlCall::EnableDepthTest);
    gl.call(GlCall::DepthFuncLessOrEqual);

    // Clear the canvas before we start drawing on it.
    gl.call(GlCall::Clear { color_buffer: true, depth_buffer: true });

    // The field of view is 45 degrees, with a width to height ratio that
    // matches the canvas, and only what is between 0.1 and 100 units away
    // from the camera is seen.
    let projection = perspective(width, height);

    // The drawing position is the centre of the scene, moved to where the
    // model is to stand.
    let model_view = model_view_matrix();

    // Tell the driver how to pull the positions out of their buffer.
    gl.call(
        GlCall::AttributeData {
            location: bindings.position,
            data: model.positions(),
            components: POSITION_COMPONENTS,
            normalized: false,
            stride: 0,
            offset: 0,
        },
    );
    gl.call(GlCall::EnableAttribute { location: bindings.position });
    match bindings.color {
        Some(color) => {
            gl.call(
                GlCall::AttributeData {
                    location: color,
                    data: model.colors(),
                    components: COLOR_COMPONENTS,
                    normalized: false,
                    stride: 0,
                    offset: 0,
                },
            );
            gl.call(GlCall::EnableAttribute { location: color });
        },
        None => {},
    }

    // Tell the driver to use our program when drawing.
    gl.call(GlCall::UseProgram { program: bindings.program.handle });

    // Set the shader uniforms.
    gl.call(
        GlCall::UniformPerspective { location: bindings.projection, transpose: false, projection },
    );
    gl.call(
        GlCall::UniformMatrix { location: bindings.model_view, transpose: false, matrix: model_view },
    );
    gl.call(GlCall::DrawTriangles { indices: model.indices() });
    proof {
        let run = gl.trace().skip(before.len() as int);
        assert(calls_of(run) =~= frame_calls(
            bindings,
            model.position_data(),
            model.color_data(),
            model.index_data(),
            width,
            height,
        ));
    }
}

/// Sets a session up on a context: makes the program from `sources` and
/// resolves its locations. On failure nothing is left to release.
pub fn establish<F: Fn(GlCall) -> GlReply>(gl: &mut Context<F>, sources: &ShaderSources) -> (bindings:
    Result<Bindings, PipelineError>)
    ensures
        final(gl).continues(*old(gl)),
        calls_of(final(gl).run_since(*old(gl))) == prepare_calls(
            sources.vertex@,
            sources.fragment@,
            replies_of(final(gl).run_since(*old(gl))),
        ),
        outcome_view(bindings) == prepare_outcome(replies_of(final(gl).run_since(*old(gl)))),
{
    let ghost before = gl.trace();
    let program = match init(gl, sources.vertex.as_str(), sources.fragment.as_str()) {
        Ok(program) => program,
        Err(error) => {
            return Err(error);
        },
    };
    let ghost middle = gl.trace();
    let bindings = resolve(gl, program);
    proof {
        let first = middle.skip(before.len() as int);
        let second = gl.trace().skip(middle.len() as int);
        let run = gl.trace().skip(before.len() as int);
        let replies = replies_of(run);
        assert forall|i: int| 0 <= i < first.len() implies replies_of(first)[i] == replies[i] by {}
        link_ignores_later_replies(
            sources.vertex@,
            sources.fragment@,
            replies_of(first),
            replies,
        );
        assert(calls_of(second).len() >= 4);
        assert forall|i: int| 0 <= i < 4 implies replies.skip(17)[i] == replies_of(second)[i] by {}
        assert(calls_of(run) =~= prepare_calls(sources.vertex@, sources.fragment@, replies));
    }
    bindings
}

/// What setting a session up asks and comes to is decided by the answers to
/// its own calls: whatever else `later` holds beyond `own` changes nothing.
pub proof fn prepare_ignores_later_replies(
    vertex_source: Seq<char>,
    fragment_source: Seq<char>,
    own: Seq<GlReplyView>,
    later: Seq<GlReplyView>,
)
    requires
        prepare_calls(vertex_source, fragment_source, own).len() == own.len(),
        own.len() <= later.len(),
        forall|i: int| 0 <= i < own.len() ==> own[i] == later[i],
    ensures
        prepare_calls(vertex_source, fragment_source, later) == prepare_calls(
            vertex_source,
            fragment_source,
            own,
        ),
        prepare_outcome(later) == prepare_outcome(own),
{
    let link = link_calls(vertex_source, fragment_source, own);
    assert(link.len() <= own.len());
    let head = own.take(link.len() as int);
    assert forall|i: int| 0 <= i < head.len() implies head[i] == own[i] by {}
    link_ignores_later_replies(vertex_source, fragment_source, head, own);
    link_ignores_later_replies(vertex_source, fragment_source, head, later);
    if link_outcome(own) is Ok {
        assert(own.len() >= 21);
        assert forall|i: int| 0 <= i < 4 implies own.skip(17)[i] == later.skip(17)[i] by {}
    }
}

/// Where in a frame the projection is uploaded.
pub open spec fn projection_at(bindings: Bindings) -> int {
    if bindings.color is Some {
        10
    } else {
        8
    }
}

/// A frame on a canvas of another size is the same frame but for the
/// projection, and of the projection only the width and the height follow the
/// canvas. The model-view matrix, which is uploaded next, is the same.
pub proof fn resize_changes_only_the_projection(
    bindings: Bindings,
    positions: Seq<i32>,
    colors: Seq<i32>,
    indices: Seq<u8>,
    width: u32,
    height: u32,
    new_width: u32,
    new_height: u32,
)
    ensures
        frame_calls(bindings, positions, colors, indices, new_width, new_height) == frame_calls(
            bindings,
            positions,
            colors,
            indices,
            width,
            height,
        ).update(
            projection_at(bindings),
            GlCallView::UniformPerspective {
                location: bindings.projection,
                transpose: false,
                projection: projection_for(new_width, new_height),
            },
        ),
        projection_for(new_width, new_height) == (Perspective {
            width: new_width,
            height: new_height,
            ..projection_for(width, height)
        }),
        frame_calls(bindings, positions, colors, indices, width, height)[projection_at(bindings)
            + 1] == (GlCallView::UniformMatrix {
            location: bindings.model_view,
            transpose: false,
            matrix: model_view(),
        }),
        frame_calls(bindings, positions, colors, indices, new_width, new_height)[projection_at(
            bindings,
        ) + 1] == frame_calls(bindings, positions, colors, indices, width, height)[projection_at(
            bindings,
        ) + 1],
{
    let old_frame = frame_calls(bindings, positions, colors, indices, width, height);
    let new_frame = frame_calls(bindings, positions, colors, indices, new_width, new_height);
    assert(new_frame =~= old_frame.update(
        projection_at(bindings),
        GlCallView::UniformPerspective {
            location: bindings.projection,
            transpose: false,
            projection: projection_for(new_width, new_height),
        },
    ));
}

/// A frame draws with the program as it is: no call of a frame builds or
/// releases a shader or a program.
pub proof fn frame_keeps_the_program(
    bindings: Bindings,
    positions: Seq<i32>,
    colors: Seq<i32>,
    indices: Seq<u8>,
    width: u32,
    height: u32,
)
    ensures
        forall|k: int|
            0 <= k < frame_calls(bindings, positions, colors, indices, width, height).len()
                ==> !builds_or_releases(
                #[trigger] frame_calls(bindings, positions, colors, indices, width, height)[k],
            ),
{
    let frame = frame_calls(bindings, positions, colors, indices, width, height);
    assert(frame.len() == 11 || frame.len() == 13);
    assert forall|k: int| 0 <= k < frame.len() implies !builds_or_releases(#[trigger] frame[k]) by {
        if k < 5 {
        } else if k < 5 + vertex_calls(bindings, positions, colors).len() {
        } else {
        }
    }
}

/// A frame ends with the draw call, which takes the indices of the mesh as
/// they are.
pub proof fn frame_draws_the_mesh(
    bindings: Bindings,
    positions: Seq<i32>,
    colors: Seq<i32>,
    indices: Seq<u8>,
    width: u32,
    height: u32,
)
    ensures
        frame_calls(bindings, positions, colors, indices, width, height).last() == (
        GlCallView::DrawTriangles { indices }),
{
}

/// Setting a session up leaves no shader object behind, and a program object
/// only if the session can draw with it.
pub proof fn prepare_accounts_for_every_object(
    vertex_source: Seq<char>,
    fragment_source: Seq<char>,
    run: Seq<Exchange>,
)
    requires
        calls_of(run) == prepare_calls(vertex_source, fragment_source, replies_of(run)),
    ensures
        shaders_held(run, run.len() as int) == 0,
        programs_held(run, run.len() as int) == (if prepare_outcome(replies_of(run)) is Ok {
            1int
        } else {
            0int
        }),
{
    let replies = replies_of(run);
    let link = link_calls(vertex_source, fragment_source, replies);
    assert(calls_of(run).len() == run.len());
    let made = run.take(link.len() as int);
    assert forall|i: int| 0 <= i < made.len() implies replies_of(made)[i] == replies[i] by {}
    assert(calls_of(made) =~= link) by {
        assert forall|i: int| 0 <= i < made.len() implies calls_of(made)[i] == link[i] by {
            assert(calls_of(run)[i] == run[i].call);
        }
    }
    link_reads_a_prefix(vertex_source, fragment_source, replies, replies_of(made));
    link_accounts_for_every_object(
        vertex_source,
        fragment_source,
        made,
        link_outcome(replies_of(made)),
    );
    held_is_additive(run, made.len() as int, run.len() - made.len());
    held_follows_the_exchanges(made, run, made.len() as int);
    let rest = run.skip(made.len() as int);
    reveal_with_fuel(shaders_held, 6);
    reveal_with_fuel(programs_held, 6);
    if link_outcome(replies) is Ok {
        assert(made.len() == 17);
        assert forall|i: int| 0 <= i < rest.len() implies (#[trigger] rest[i]).call
            == resolve_calls(link_outcome(replies)->Ok_0, replies.skip(17))[i] by {
            assert(calls_of(run)[i + 17] == run[i + 17].call);
        }
    }
}

/// What a session holds in each of its phases.
enum Session<F: Fn(GlCall) -> GlReply> {
    Uninitialized,
    ContextAcquired { gl: Context<F> },
    ProgramReady { gl: Context<F>, bindings: Bindings },
    Rendering { gl: Context<F>, bindings: Bindings },
    Failed { gl: Context<F>, error: PipelineError },
}

/// A render session: a model, and the graphics context it is drawn on with
/// what has been set up there.
pub struct State<M: Model, F: Fn(GlCall) -> GlReply> {
    model: M,
    session: Session<F>,
}

impl<M: Model, F: Fn(GlCall) -> GlReply> State<M, F> {
    /// The model of this session.
    pub closed spec fn model(&self) -> M {
        self.model
    }

    /// How far this session has come.
    pub closed spec fn spec_phase(&self) -> Phase {
        match self.session {
            Session::Uninitialized => Phase::Uninitialized,
            Session::ContextAcquired { .. } => Phase::ContextAcquired,
            Session::ProgramReady { .. } => Phase::ProgramReady,
            Session::Rendering { .. } => Phase::Rendering,
            Session::Failed { .. } => Phase::Failed,
        }
    }

    /// The context of this session, once it has one.
    pub closed spec fn context(&self) -> Option<Context<F>> {
        match self.session {
            Session::Uninitialized => None,
            Session::ContextAcquired { gl } => Some(gl),
            Session::ProgramReady { gl, .. } => Some(gl),
            Session::Rendering { gl, .. } => Some(gl),
            Session::Failed { gl, .. } => Some(gl),
        }
    }

    /// The program and its locations, while this session can draw.
    pub closed spec fn spec_bindings(&self) -> Option<Bindings> {
        match self.session {
            Session::ProgramReady { bindings, .. } => Some(bindings),
            Session::Rendering { bindings, .. } => Some(bindings),
            _ => None,
        }
    }

    /// Why this session failed, if it did.
    pub closed spec fn failure(&self) -> Option<PipelineErrorView> {
        match self.session {
            Session::Failed { error, .. } => Some(error@),
            _ => None,
        }
    }

    /// Whether this session can draw: its program is ready, or it has drawn
    /// before.
    pub open spec fn can_draw(&self) -> bool {
        self.phase() == Phase::ProgramReady || self.phase() == Phase::Rendering
    }

    /// This session is `before` with the same model, some exchanges later.
    pub open spec fn follows(&self, before: Self) -> bool {
        &&& self.model() == before.model()
        &&& self.context() is Some
        &&& before.context() is Some
        &&& self.context()->Some_0.continues(before.context()->Some_0)
    }

    /// The exchanges that this session has seen and `before` has not.
    pub open spec fn run_since(&self, before: Self) -> Seq<Exchange> {
        self.context()->Some_0.run_since(before.context()->Some_0)
    }

    /// What a session holds is decided by its phase: a context from
    /// `ContextAcquired` on, bindings while it can draw, a failure once it has
    /// failed.
    pub proof fn phase_decides(&self)
        ensures
            self.context() is Some <==> self.phase() != Phase::Uninitialized,
            self.spec_bindings() is Some <==> self.can_draw(),
            self.failure() is Some <==> self.phase() == Phase::Failed,
    {
    }

    /// A session for `model`, with nothing acquired yet.
    pub fn create(model: M) -> (state: Self)
        ensures
            state.model() == model,
            state.phase() == Phase::Uninitialized,
    {
        State { model, session: Session::Uninitialized }
    }

    /// How far this session has come.
    #[verifier::when_used_as_spec(spec_phase)]
    pub fn phase(&self) -> (phase: Phase)
        ensures
            phase == self.spec_phase(),
    {
        match &self.session {
            Session::Uninitialized => Phase::Uninitialized,
            Session::ContextAcquired { .. } => Phase::ContextAcquired,
            Session::ProgramReady { .. } => Phase::ProgramReady,
            Session::Rendering { .. } => Phase::Rendering,
            Session::Failed { .. } => Phase::Failed,
        }
    }

    /// The program and its locations, while this session can draw.
    #[verifier::when_used_as_spec(spec_bindings)]
    pub fn bindings(&self) -> (bindings: Option<Bindings>)
        ensures
            bindings == self.spec_bindings(),
    {
        match &self.session {
            Session::ProgramReady { bindings, .. } => Some(*bindings),
            Session::Rendering { bindings, .. } => Some(*bindings),
            _ => None,
        }
    }

    /// Why this session failed, if it did.
    pub fn error(&self) -> (error: Option<&PipelineError>)
        ensures
            match error {
                Some(error) => self.failure() == Some(error@),
                None => self.failure() is None,
            },
    {
        match &self.session {
            Session::Failed { error, .. } => Some(error),
            _ => None,
        }
    }

    /// Takes the context that this session is to draw on, and clears the
    /// canvas to black. A session that has a context keeps it, and `gl` is
    /// dropped.
    pub fn acquire(self, gl: Context<F>) -> (state: Self)
        ensures
            state.model() == self.model(),
            self.phase() == Phase::Uninitialized ==> {
                &&& state.phase() == Phase::ContextAcquired
                &&& state.context() is Some
                &&& state.context()->Some_0.continues(gl)
                &&& calls_of(state.context()->Some_0.run_since(gl)) == acquire_calls()
            },
            self.phase() != Phase::Uninitialized ==> state == self,
    {
        let State { model, session } = self;
        match session {
            Session::Uninitialized => {
                let ghost before = gl.trace();
                let mut gl = gl;
                gl.call(GlCall::ClearColor { red: 0, green: 0, blue: 0, alpha: 1 });
                gl.call(GlCall::Clear { color_buffer: true, depth_buffer: false });
                proof {
                    let run = gl.trace().skip(before.len() as int);
                    assert(calls_of(run) =~= acquire_calls());
                }
                State { model, session: Session::ContextAcquired { gl } }
            },
            other => State { model, session: other },
        }
    }

    /// Sets the session up: makes the program from `sources` and resolves its
    /// locations. A failure ends the session. A session that has not just
    /// acquired its context stays as it is.
    pub fn prepare(self, sources: &ShaderSources) -> (state: Self)
        ensures
            state.model() == self.model(),
            self.phase() == Phase::ContextAcquired ==> {
                let run = state.run_since(self);
                &&& state.follows(self)
                &&& calls_of(run) == prepare_calls(
                    sources.vertex@,
                    sources.fragment@,
                    replies_of(run),
                )
                &&& match prepare_outcome(replies_of(run)) {
                    Ok(bindings) => state.phase() == Phase::ProgramReady && state.bindings()
                        == Some(bindings),
                    Err(error) => state.phase() == Phase::Failed && state.failure() == Some(error),
                }
            },
            self.phase() != Phase::ContextAcquired ==> state == self,
    {
        let State { model, session } = self;
        match session {
            Session::ContextAcquired { gl } => {
                let mut gl = gl;
                match establish(&mut gl, sources) {
                    Ok(bindings) => State { model, session: Session::ProgramReady { gl, bindings } },
                    Err(error) => State { model, session: Session::Failed { gl, error } },
                }
            },
            other => State { model, session: other },
        }
    }

    /// Draws one frame on a canvas of `width` by `height` pixels. A session
    /// that cannot draw stays as it is, and nothing is drawn.
    pub fn render(self, width: u32, height: u32) -> (state: Self)
        ensures
            state.model() == self.model(),
            self.can_draw() ==> {
                &&& state.follows(self)
                &&& state.phase() == Phase::Rendering
                &&& state.bindings() == self.bindings()
                &&& calls_of(state.run_since(self)) == frame_calls(
                    self.bindings()->Some_0,
                    self.model().position_data(),
                    self.model().color_data(),
                    self.model().index_data(),
                    width,
                    height,
                )
            },
            !self.can_draw() ==> state == self,
    {
        let State { model, session } = self;
        match session {
            Session::ProgramReady { gl, bindings } => {
                let mut gl = gl;
                draw(&mut gl, bindings, &model, width, height);
                State { model, session: Session::Rendering { gl, bindings } }
            },
            Session::Rendering { gl, bindings } => {
                let mut gl = gl;
                draw(&mut gl, bindings, &model, width, height);
                State { model, session: Session::Rendering { gl, bindings } }
            },
            other => State { model, session: other },
        }
    }

    /// Mounts a new session on `gl`: takes the context, sets the session up
    /// from `sources` and draws the first frame on a canvas of `width` by
    /// `height` pixels. A failure ends the session before anything is drawn.
    /// A session that was mounted before stays as it is, and `gl` is dropped.
    pub fn mounted(self, gl: Context<F>, sources: &ShaderSources, width: u32, height: u32) -> (state:
        Self)
        ensures
            state.model() == self.model(),
            self.phase() == Phase::Uninitialized ==> {
                let run = state.context()->Some_0.run_since(gl);
                &&& state.context() is Some
                &&& state.context()->Some_0.continues(gl)
                &&& calls_of(run) == mount_calls(
                    sources.vertex@,
                    sources.fragment@,
                    self.model().position_data(),
                    self.model().color_data(),
                    self.model().index_data(),
                    width,
                    height,
                    replies_of(run),
                )
                &&& match prepare_outcome(replies_of(run).skip(greeted_in())) {
                    Ok(bindings) => state.phase() == Phase::Rendering && state.bindings() == Some(
                        bindings,
                    ),
                    Err(error) => state.phase() == Phase::Failed && state.failure() == Some(error),
                }
            },
            self.phase() != Phase::Uninitialized ==> state == self,
    {
        match self.phase() {
            Phase::Uninitialized => {
                let acquired = self.acquire(gl);
                let prepared = acquired.prepare(sources);
                let state = prepared.render(width, height);
                proof {
                    let first = acquired.context()->Some_0.run_since(gl);
                    let second = prepared.run_since(acquired);
                    let run = state.context()->Some_0.run_since(gl);
                    let replies = replies_of(run);
                    prepared.phase_decides();
                    state.phase_decides();
                    assert(calls_of(first).len() == 2);
                    assert(calls_of(second).len() == second.len());
                    assert forall|i: int| 0 <= i < second.len() implies replies_of(second)[i]
                        == replies.skip(2)[i] by {}
                    prepare_ignores_later_replies(
                        sources.vertex@,
                        sources.fragment@,
                        replies_of(second),
                        replies.skip(2),
                    );
                    if prepared.can_draw() {
                        let third = state.run_since(prepared);
                        assert(calls_of(third).len() == third.len());
                    }
                    assert(calls_of(run) =~= mount_calls(
                        sources.vertex@,
                        sources.fragment@,
                        self.model().position_data(),
                        self.model().color_data(),
                        self.model().index_data(),
                        width,
                        height,
                        replies,
                    ));
                }
                state
            },
            _ => self,
        }
    }

    /// Releases the program. A session that can draw is back to where it had
    /// just acquired its context; any other stays as it is.
    pub fn teardown(self) -> (state: Self)
        ensures
            state.model() == self.model(),
            self.can_draw() ==> {
                &&& state.follows(self)
                &&& state.phase() == Phase::ContextAcquired
                &&& calls_of(state.run_since(self)) == seq![
                    GlCallView::DeleteProgram { program: self.bindings()->Some_0.program.handle },
                ]
            },
            !self.can_draw() ==> state == self,
    {
        let State { model, session } = self;
        match session {
            Session::ProgramReady { gl, bindings } => {
                let mut gl = gl;
                gl.call(GlCall::DeleteProgram { program: bindings.program.handle });
                proof {
                    let run = gl.trace().skip(self.context()->Some_0.trace().len() as int);
                    assert(calls_of(run) =~= seq![
                        GlCallView::DeleteProgram { program: bindings.program.handle },
                    ]);
                }
                State { model, session: Session::ContextAcquired { gl } }
            },
            Session::Rendering { gl, bindings } => {
                let mut gl = gl;
                gl.call(GlCall::DeleteProgram { program: bindings.program.handle });
                proof {
                    let run = gl.trace().skip(self.context()->Some_0.trace().len() as int);
                    assert(calls_of(run) =~= seq![
                        GlCallView::DeleteProgram { program: bindings.program.handle },
                    ]);
                }
                State { model, session: Session::ContextAcquired { gl } }
            },
            other => State { model, session: other },
        }
    }
}

} // verus!
