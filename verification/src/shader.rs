//! Compiling shader units and linking them into a program.
//!
//! Either step is a short conversation with the driver. What is asked next
//! depends on what was answered before, so each conversation is specified by
//! two functions of the answers: the calls that are made, and the outcome.

use crate::error::{PipelineError, PipelineErrorView};
use crate::gl::{
    accepted, calls_of, names_program, names_shader, obtains_program, obtains_shader,
    programs_held, replies_of, reply_affirms, reply_id, reply_log, shaders_held, Context, Exchange,
    GlCall, GlCallView, GlReply, GlReplyView, ShaderStage,
};
use vstd::prelude::*;

verus! {

/// A shader unit that the driver has compiled.
#[derive(Clone, Copy, Debug, PartialEq, Eq, Structural)]
pub struct CompiledShader {
    pub handle: u32,
    pub stage: ShaderStage,
}

/// A program that the driver has linked and that can draw.
#[derive(Clone, Copy, Debug, PartialEq, Eq, Structural)]
pub struct LinkedProgram {
    pub handle: u32,
}

/// The calls that compile one shader unit, given the answers to them.
///
/// A shader object is allocated; without one nothing more is asked. The source
/// is uploaded and compiled and the status is queried. Unless the driver
/// affirms it, the diagnostics are fetched and the shader object is released.
pub open spec fn compile_calls(
    stage: ShaderStage,
    source: Seq<char>,
    replies: Seq<GlReplyView>,
) -> Seq<GlCallView> {
    let create = seq![GlCallView::CreateShader { stage }];
    match reply_id(replies[0]) {
        None => create,
        Some(shader) => {
            let build = create + seq![
                GlCallView::ShaderSource { shader, source },
                GlCallView::CompileShader { shader },
                GlCallView::CompileStatus { shader },
            ];
            if reply_affirms(replies[3]) {
                build
            } else {
                build + seq![
                    GlCallView::ShaderInfoLog { shader },
                    GlCallView::DeleteShader { shader },
                ]
            }
        },
    }
}

/// What compiling one shader unit comes to, given the answers of the driver:
/// the compiled unit if the driver affirms the status, and else the error with
/// the driver's diagnostics.
pub open spec fn compile_outcome(stage: ShaderStage, replies: Seq<GlReplyView>) -> Result<
    CompiledShader,
    PipelineErrorView,
> {
    match reply_id(replies[0]) {
        None => Err(PipelineErrorView::Allocation),
        Some(shader) => if reply_affirms(replies[3]) {
            Ok(CompiledShader { handle: shader, stage })
        } else {
            Err(PipelineErrorView::Compile { stage, log: reply_log(replies[4]) })
        },
    }
}

/// The number of exchanges that it takes to compile a unit that the driver
/// accepts.
pub open spec fn compiled_in() -> int {
    4
}

/// `run` is the compilation of `source` for `stage`, and ends in `outcome`.
pub open spec fn compile_run(
    stage: ShaderStage,
    source: Seq<char>,
    run: Seq<Exchange>,
    outcome: Result<CompiledShader, PipelineErrorView>,
) -> bool {
    &&& calls_of(run) == compile_calls(stage, source, replies_of(run))
    &&& outcome == compile_outcome(stage, replies_of(run))
}

/// The calls that link two compiled units, given the answers to them.
///
/// A program object is allocated, both units are attached, the program is
/// linked and the status is queried. If the driver affirms it, the units are
/// detached and released: the program keeps what it needs of them. If not,
/// the diagnostics are fetched, and the program and both units are released.
/// Without a program object only the units are released.
pub open spec fn assemble_calls(
    vertex: CompiledShader,
    fragment: CompiledShader,
    replies: Seq<GlReplyView>,
) -> Seq<GlCallView> {
    let create = seq![GlCallView::CreateProgram];
    match reply_id(replies[0]) {
        None => create + seq![
            GlCallView::DeleteShader { shader: vertex.handle },
            GlCallView::DeleteShader { shader: fragment.handle },
        ],
        Some(program) => {
            let build = create + seq![
                GlCallView::AttachShader { program, shader: vertex.handle },
                GlCallView::AttachShader { program, shader: fragment.handle },
                GlCallView::LinkProgram { program },
                GlCallView::LinkStatus { program },
            ];
            if reply_affirms(replies[4]) {
                build + seq![
                    GlCallView::DetachShader { program, shader: vertex.handle },
                    GlCallView::DeleteShader { shader: vertex.handle },
                    GlCallView::DetachShader { program, shader: fragment.handle },
                    GlCallView::DeleteShader { shader: fragment.handle },
                ]
            } else {
                build + seq![
                    GlCallView::ProgramInfoLog { program },
                    GlCallView::DeleteProgram { program },
                    GlCallView::DeleteShader { shader: vertex.handle },
                    GlCallView::DeleteShader { shader: fragment.handle },
                ]
            }
        },
    }
}

/// What linking two compiled units comes to, given the answers of the driver.
pub open spec fn assemble_outcome(replies: Seq<GlReplyView>) -> Result<
    LinkedProgram,
    PipelineErrorView,
> {
    match reply_id(replies[0]) {
        None => Err(PipelineErrorView::Allocation),
        Some(program) => if reply_affirms(replies[4]) {
            Ok(LinkedProgram { handle: program })
        } else {
            Err(PipelineErrorView::Link { log: reply_log(replies[5]) })
        },
    }
}

/// `run` links `vertex` and `fragment`, and ends in `outcome`.
pub open spec fn assemble_run(
    vertex: CompiledShader,
    fragment: CompiledShader,
    run: Seq<Exchange>,
    outcome: Result<LinkedProgram, PipelineErrorView>,
) -> bool {
    &&& calls_of(run) == assemble_calls(vertex, fragment, replies_of(run))
    &&& outcome == assemble_outcome(replies_of(run))
}

/// The calls that make a program from two sources, given the answers to them:
/// the vertex unit is compiled, then the fragment unit, then the two are
/// linked. The first failure ends it; a vertex unit that is left without its
/// fragment unit is released.
pub open spec fn link_calls(
    vertex_source: Seq<char>,
    fragment_source: Seq<char>,
    replies: Seq<GlReplyView>,
) -> Seq<GlCallView> {
    let first = compile_calls(ShaderStage::Vertex, vertex_source, replies);
    match compile_outcome(ShaderStage::Vertex, replies) {
        Err(_) => first,
        Ok(vertex) => {
            let second = compile_calls(
                ShaderStage::Fragment,
                fragment_source,
                replies.skip(compiled_in()),
            );
            match compile_outcome(ShaderStage::Fragment, replies.skip(compiled_in())) {
                Err(_) => first + second + seq![GlCallView::DeleteShader { shader: vertex.handle }],
                Ok(fragment) => first + second + assemble_calls(
                    vertex,
                    fragment,
                    replies.skip(2 * compiled_in()),
                ),
            }
        },
    }
}

/// What making a program from two sources comes to, given the answers of the
/// driver: the program, or the error of the first step that failed.
pub open spec fn link_outcome(replies: Seq<GlReplyView>) -> Result<
    LinkedProgram,
    PipelineErrorView,
> {
    match compile_outcome(ShaderStage::Vertex, replies) {
        Err(error) => Err(error),
        Ok(_) => match compile_outcome(ShaderStage::Fragment, replies.skip(compiled_in())) {
            Err(error) => Err(error),
            Ok(_) => assemble_outcome(replies.skip(2 * compiled_in())),
        },
    }
}

/// `run` makes a program from the two sources, and ends in `outcome`.
pub open spec fn link_run(
    vertex_source: Seq<char>,
    fragment_source: Seq<char>,
    run: Seq<Exchange>,
    outcome: Result<LinkedProgram, PipelineErrorView>,
) -> bool {
    &&& calls_of(run) == link_calls(vertex_source, fragment_source, replies_of(run))
    &&& outcome == link_outcome(replies_of(run))
}

/// How long a compilation is, and that its exchanges are those of
/// `compile_calls`, one by one.
proof fn compile_shape(
    stage: ShaderStage,
    source: Seq<char>,
    run: Seq<Exchange>,
    outcome: Result<CompiledShader, PipelineErrorView>,
)
    requires
        compile_run(stage, source, run, outcome),
    ensures
        run.len() == 1 || run.len() == 4 || run.len() == 6,
        run.len() == 1 <==> reply_id(run[0].reply) is None,
        run.len() == 4 <==> reply_id(run[0].reply) is Some && reply_affirms(run[3].reply),
        outcome == compile_outcome(stage, replies_of(run)),
        replies_of(run)[0] == run[0].reply,
        run.len() >= 4 ==> replies_of(run)[3] == run[3].reply,
        run.len() >= 6 ==> replies_of(run)[4] == run[4].reply,
        forall|i: int|
            0 <= i < run.len() ==> (#[trigger] run[i]).call == compile_calls(
                stage,
                source,
                replies_of(run),
            )[i],
{
    let calls = compile_calls(stage, source, replies_of(run));
    assert(calls_of(run).len() == run.len());
    assert(calls.len() >= 1);
    assert(replies_of(run)[0] == run[0].reply);
    if reply_id(run[0].reply) is Some {
        assert(calls.len() >= 4);
        assert(replies_of(run)[3] == run[3].reply);
        if !reply_affirms(run[3].reply) {
            assert(calls.len() == 6);
            assert(replies_of(run)[4] == run[4].reply);
        }
    }
    assert forall|i: int| 0 <= i < run.len() implies (#[trigger] run[i]).call == calls[i] by {
        assert(calls_of(run)[i] == run[i].call);
    }
}

/// A compilation succeeds exactly when the driver gives all that is asked of
/// it: the shader object, and a yes to the status query.
pub proof fn compile_succeeds_iff_accepted(
    stage: ShaderStage,
    source: Seq<char>,
    run: Seq<Exchange>,
    outcome: Result<CompiledShader, PipelineErrorView>,
)
    requires
        compile_run(stage, source, run, outcome),
    ensures
        outcome is Ok <==> forall|i: int| 0 <= i < run.len() ==> accepted(#[trigger] run[i]),
{
    compile_shape(stage, source, run, outcome);
    if run.len() == 1 {
        assert(!accepted(run[0]));
    } else if run.len() == 6 {
        assert(!accepted(run[3]));
    }
}

/// A compilation that fails leaves no shader object behind, and one that
/// succeeds leaves the one it returns.
pub proof fn compile_accounts_for_its_shader(
    stage: ShaderStage,
    source: Seq<char>,
    run: Seq<Exchange>,
    outcome: Result<CompiledShader, PipelineErrorView>,
)
    requires
        compile_run(stage, source, run, outcome),
    ensures
        shaders_held(run, run.len() as int) == (if outcome is Ok {
            1int
        } else {
            0int
        }),
        programs_held(run, run.len() as int) == 0,
{
    compile_shape(stage, source, run, outcome);
    reveal_with_fuel(shaders_held, 7);
    reveal_with_fuel(programs_held, 7);
}

/// How long the making of a program is, and that its exchanges are those of
/// `link_calls`, one by one.
proof fn link_shape(
    vertex_source: Seq<char>,
    fragment_source: Seq<char>,
    run: Seq<Exchange>,
    outcome: Result<LinkedProgram, PipelineErrorView>,
)
    requires
        link_run(vertex_source, fragment_source, run, outcome),
    ensures
        run.len() == link_calls(vertex_source, fragment_source, replies_of(run)).len(),
        run.len() == 1 || run.len() == 6 || run.len() == 11 || run.len() == 17,
        forall|i: int| 0 <= i < run.len() ==> replies_of(run)[i] == (#[trigger] run[i]).reply,
        forall|i: int|
            0 <= i < run.len() - 4 ==> replies_of(run).skip(4)[i] == (#[trigger] run[i + 4]).reply,
        forall|i: int|
            0 <= i < run.len() - 8 ==> replies_of(run).skip(8)[i] == (#[trigger] run[i + 8]).reply,
        forall|i: int|
            0 <= i < run.len() ==> (#[trigger] run[i]).call == link_calls(
                vertex_source,
                fragment_source,
                replies_of(run),
            )[i],
{
    let replies = replies_of(run);
    let calls = link_calls(vertex_source, fragment_source, replies);
    assert(calls_of(run).len() == run.len());
    let first = compile_calls(ShaderStage::Vertex, vertex_source, replies);
    assert(first.len() == 1 || first.len() == 4 || first.len() == 6);
    if compile_outcome(ShaderStage::Vertex, replies) is Ok {
        assert(first.len() == 4);
        let second = compile_calls(ShaderStage::Fragment, fragment_source, replies.skip(4));
        assert(second.len() == 1 || second.len() == 4 || second.len() == 6);
        if compile_outcome(ShaderStage::Fragment, replies.skip(4)) is Ok {
            assert(second.len() == 4);
            let third = assemble_calls(
                compile_outcome(ShaderStage::Vertex, replies)->Ok_0,
                compile_outcome(ShaderStage::Fragment, replies.skip(4))->Ok_0,
                replies.skip(8),
            );
            assert(third.len() == 3 || third.len() == 9);
            assert(calls.len() == 8 + third.len());
        } else {
            assert(calls.len() == 4 + second.len() + 1);
        }
    }
    assert forall|i: int| 0 <= i < run.len() implies (#[trigger] run[i]).call == calls[i] by {
        assert(calls_of(run)[i] == run[i].call);
    }
}

/// A program is made exactly when the driver gives all that is asked of it:
/// every object, and a yes to every status query.
pub proof fn link_succeeds_iff_accepted(
    vertex_source: Seq<char>,
    fragment_source: Seq<char>,
    run: Seq<Exchange>,
    outcome: Result<LinkedProgram, PipelineErrorView>,
)
    requires
        link_run(vertex_source, fragment_source, run, outcome),
    ensures
        outcome is Ok <==> forall|i: int| 0 <= i < run.len() ==> accepted(#[trigger] run[i]),
{
    link_shape(vertex_source, fragment_source, run, outcome);
    let replies = replies_of(run);
    if compile_outcome(ShaderStage::Vertex, replies) is Err {
        if reply_id(replies[0]) is None {
            assert(!accepted(run[0]));
        } else {
            assert(!accepted(run[3]));
        }
    } else if compile_outcome(ShaderStage::Fragment, replies.skip(4)) is Err {
        if reply_id(replies.skip(4)[0]) is None {
            assert(!accepted(run[4]));
        } else {
            assert(!accepted(run[7]));
        }
    } else if outcome is Err {
        if reply_id(replies.skip(8)[0]) is None {
            assert(!accepted(run[8]));
        } else {
            assert(!accepted(run[12]));
        }
    }
}

/// Whether a program is made or not, no shader object is left behind, and a
/// program object is left only if it is the one returned.
pub proof fn link_accounts_for_every_object(
    vertex_source: Seq<char>,
    fragment_source: Seq<char>,
    run: Seq<Exchange>,
    outcome: Result<LinkedProgram, PipelineErrorView>,
)
    requires
        link_run(vertex_source, fragment_source, run, outcome),
    ensures
        shaders_held(run, run.len() as int) == 0,
        programs_held(run, run.len() as int) == (if outcome is Ok {
            1int
        } else {
            0int
        }),
{
    link_shape(vertex_source, fragment_source, run, outcome);
    reveal_with_fuel(shaders_held, 18);
    reveal_with_fuel(programs_held, 18);
}

/// The making of a program is about no object but its own: a call that names
/// a shader or a program names one that the driver handed out earlier in the
/// same run.
pub proof fn link_names_only_its_own(
    vertex_source: Seq<char>,
    fragment_source: Seq<char>,
    run: Seq<Exchange>,
    outcome: Result<LinkedProgram, PipelineErrorView>,
    i: int,
    id: u32,
)
    requires
        link_run(vertex_source, fragment_source, run, outcome),
        0 <= i < run.len(),
    ensures
        names_shader(run[i].call, id) ==> exists|j: int|
            0 <= j < i && obtains_shader(#[trigger] run[j], id),
        names_program(run[i].call, id) ==> exists|j: int|
            0 <= j < i && obtains_program(#[trigger] run[j], id),
{
    link_shape(vertex_source, fragment_source, run, outcome);
    if names_shader(run[i].call, id) {
        assert(obtains_shader(run[0], id) || obtains_shader(run[4], id));
    }
    if names_program(run[i].call, id) {
        assert(obtains_program(run[8], id));
    }
}

/// Making another program leaves an earlier one alone. Unless the driver
/// hands the earlier program out again, no call of the run names it, and the
/// program that the run returns is another.
pub proof fn relink_leaves_earlier_program_alone(
    vertex_source: Seq<char>,
    fragment_source: Seq<char>,
    run: Seq<Exchange>,
    outcome: Result<LinkedProgram, PipelineErrorView>,
    earlier: LinkedProgram,
)
    requires
        link_run(vertex_source, fragment_source, run, outcome),
        forall|j: int| 0 <= j < run.len() ==> !obtains_program(#[trigger] run[j], earlier.handle),
    ensures
        forall|i: int| 0 <= i < run.len() ==> !names_program((#[trigger] run[i]).call, earlier.handle),
        outcome matches Ok(program) ==> program != earlier,
{
    assert forall|i: int| 0 <= i < run.len() implies !names_program(
        (#[trigger] run[i]).call,
        earlier.handle,
    ) by {
        link_names_only_its_own(vertex_source, fragment_source, run, outcome, i, earlier.handle);
    }
    link_shape(vertex_source, fragment_source, run, outcome);
    if outcome is Ok {
        assert(obtains_program(run[8], outcome->Ok_0.handle));
    }
}

/// What the making of a program asks and comes to is decided by the answers
/// to its own calls: whatever else `later` holds beyond `own` changes nothing.
pub proof fn link_ignores_later_replies(
    vertex_source: Seq<char>,
    fragment_source: Seq<char>,
    own: Seq<GlReplyView>,
    later: Seq<GlReplyView>,
)
    requires
        link_calls(vertex_source, fragment_source, own).len() == own.len(),
        own.len() <= later.len(),
        forall|i: int| 0 <= i < own.len() ==> own[i] == later[i],
    ensures
        link_calls(vertex_source, fragment_source, later) == link_calls(
            vertex_source,
            fragment_source,
            own,
        ),
        link_outcome(later) == link_outcome(own),
        link_outcome(own) is Ok ==> own.len() == 17,
{
    assert(own.len() >= 1);
    assert(own[0] == later[0]);
    if reply_id(own[0]) is Some {
        assert(own.len() >= 4);
        assert(own[3] == later[3]);
        if compile_outcome(ShaderStage::Vertex, own) is Ok {
            assert(own.len() >= 5);
            assert(own.skip(4)[0] == own[4] && later.skip(4)[0] == later[4]);
            if reply_id(own[4]) is Some {
                assert(own.len() >= 8);
                assert(own.skip(4)[3] == own[7] && later.skip(4)[3] == later[7]);
                if compile_outcome(ShaderStage::Fragment, own.skip(4)) is Ok {
                    assert(own.len() >= 11);
                    assert(own.skip(8)[0] == own[8] && later.skip(8)[0] == later[8]);
                    if reply_id(own[8]) is Some {
                        assert(own.len() == 17);
                        assert(own.skip(8)[4] == own[12] && later.skip(8)[4] == later[12]);
                        assert(own.skip(8)[5] == own[13] && later.skip(8)[5] == later[13]);
                    }
                } else {
                    assert(own.len() == 11);
                    assert(own.skip(4)[4] == own[8] && later.skip(4)[4] == later[8]);
                }
            }
        } else {
            assert(own.len() == 6);
            assert(own[4] == later[4]);
        }
    }
}

/// The making of a program reads no answer but those to its own calls: the
/// first of `replies`, as many as it makes calls, decide as all of them do.
pub proof fn link_reads_a_prefix(
    vertex_source: Seq<char>,
    fragment_source: Seq<char>,
    replies: Seq<GlReplyView>,
    own: Seq<GlReplyView>,
)
    requires
        own.len() == link_calls(vertex_source, fragment_source, replies).len(),
        own.len() <= replies.len(),
        forall|i: int| 0 <= i < own.len() ==> own[i] == replies[i],
    ensures
        link_calls(vertex_source, fragment_source, own) == link_calls(
            vertex_source,
            fragment_source,
            replies,
        ),
        link_outcome(own) == link_outcome(replies),
        link_outcome(replies) is Ok ==> own.len() == 17,
{
    assert(own.len() >= 1);
    assert(own[0] == replies[0]);
    if reply_id(own[0]) is Some {
        assert(own.len() >= 4);
        assert(own[3] == replies[3]);
        if compile_outcome(ShaderStage::Vertex, own) is Ok {
            assert(own.len() >= 5);
            assert(own.skip(4)[0] == own[4] && replies.skip(4)[0] == replies[4]);
            if reply_id(own[4]) is Some {
                assert(own.len() >= 8);
                assert(own.skip(4)[3] == own[7] && replies.skip(4)[3] == replies[7]);
                if compile_outcome(ShaderStage::Fragment, own.skip(4)) is Ok {
                    assert(own.len() >= 11);
                    assert(own.skip(8)[0] == own[8] && replies.skip(8)[0] == replies[8]);
                    if reply_id(own[8]) is Some {
                        assert(own.len() == 17);
                        assert(own.skip(8)[4] == own[12] && replies.skip(8)[4] == replies[12]);
                        assert(own.skip(8)[5] == own[13] && replies.skip(8)[5] == replies[13]);
                    }
                } else {
                    assert(own.len() == 11);
                    assert(own.skip(4)[4] == own[8] && replies.skip(4)[4] == replies[8]);
                }
            }
        } else {
            assert(own.len() == 6);
            assert(own[4] == replies[4]);
        }
    }
}

/// The outcome of a step, with the error as its view.
pub open spec fn outcome_view<T>(outcome: Result<T, PipelineError>) -> Result<
    T,
    PipelineErrorView,
> {
    match outcome {
        Ok(value) => Ok(value),
        Err(error) => Err(error@),
    }
}

/// Creates a shader of the given kind, loads the source and compiles it.
///
/// The unit is the caller's to release. On failure nothing is left to
/// release: the error holds the diagnostics and the shader object is gone.
pub fn load<F: Fn(GlCall) -> GlReply>(gl: &mut Context<F>, kind: ShaderStage, src: &str) -> (unit:
    Result<CompiledShader, PipelineError>)
    ensures
        final(gl).continues(*old(gl)),
        compile_run(kind, src@, final(gl).run_since(*old(gl)), outcome_view(unit)),
{
    let ghost before = gl.trace();
    let created = gl.call(GlCall::CreateShader { stage: kind });
    let shader = match created.id() {
        Some(shader) => shader,
        None => {
            proof {
                let run = gl.trace().skip(before.len() as int);
                assert(calls_of(run) =~= compile_calls(kind, src@, replies_of(run)));
            }
            return Err(PipelineError::Allocation);
        },
    };
    gl.call(GlCall::ShaderSource { shader, source: src.to_owned() });
    gl.call(GlCall::CompileShader { shader });
    let status = gl.call(GlCall::CompileStatus { shader });
    if status.affirms() {
        proof {
            let run = gl.trace().skip(before.len() as int);
            assert(calls_of(run) =~= compile_calls(kind, src@, replies_of(run)));
        }
        Ok(CompiledShader { handle: shader, stage: kind })
    } else {
        let log = gl.call(GlCall::ShaderInfoLog { shader }).into_log();
        gl.call(GlCall::DeleteShader { shader });
        proof {
            let run = gl.trace().skip(before.len() as int);
            assert(calls_of(run) =~= compile_calls(kind, src@, replies_of(run)));
        }
        Err(PipelineError::Compile { stage: kind, log })
    }
}

/// Links two compiled units into a program and releases the units.
///
/// On failure nothing is left to release: the error holds the diagnostics,
/// and the program object and both units are gone.
pub fn assemble<F: Fn(GlCall) -> GlReply>(
    gl: &mut Context<F>,
    vertex: CompiledShader,
    fragment: CompiledShader,
) -> (linked: Result<LinkedProgram, PipelineError>)
    ensures
        final(gl).continues(*old(gl)),
        assemble_run(vertex, fragment, final(gl).run_since(*old(gl)), outcome_view(linked)),
{
    let ghost before = gl.trace();
    let created = gl.call(GlCall::CreateProgram);
    let program = match created.id() {
        Some(program) => program,
        None => {
            gl.call(GlCall::DeleteShader { shader: vertex.handle });
            gl.call(GlCall::DeleteShader { shader: fragment.handle });
            proof {
                let run = gl.trace().skip(before.len() as int);
                assert(calls_of(run) =~= assemble_calls(vertex, fragment, replies_of(run)));
            }
            return Err(PipelineError::Allocation);
        },
    };
    gl.call(GlCall::AttachShader { program, shader: vertex.handle });
    gl.call(GlCall::AttachShader { program, shader: fragment.handle });
    gl.call(GlCall::LinkProgram { program });
    let status = gl.call(GlCall::LinkStatus { program });
    if status.affirms() {
        gl.call(GlCall::DetachShader { program, shader: vertex.handle });
        gl.call(GlCall::DeleteShader { shader: vertex.handle });
        gl.call(GlCall::DetachShader { program, shader: fragment.handle });
        gl.call(GlCall::DeleteShader { shader: fragment.handle });
        proof {
            let run = gl.trace().skip(before.len() as int);
            assert(calls_of(run) =~= assemble_calls(vertex, fragment, replies_of(run)));
        }
        Ok(LinkedProgram { handle: program })
    } else {
        let log = gl.call(GlCall::ProgramInfoLog { program }).into_log();
        gl.call(GlCall::DeleteProgram { program });
        gl.call(GlCall::DeleteShader { shader: vertex.handle });
        gl.call(GlCall::DeleteShader { shader: fragment.handle });
        proof {
            let run = gl.trace().skip(before.len() as int);
            assert(calls_of(run) =~= assemble_calls(vertex, fragment, replies_of(run)));
        }
        Err(PipelineError::Link { log })
    }
}

/// Initializes a shader program from the sources of its two units, so that
/// the driver knows how to draw.
///
/// The program is the caller's to release. On failure nothing is left to
/// release, and the error is that of the step that failed.
pub fn init<F: Fn(GlCall) -> GlReply>(gl: &mut Context<F>, vsrc: &str, fsrc: &str) -> (program:
    Result<LinkedProgram, PipelineError>)
    ensures
        final(gl).continues(*old(gl)),
        link_run(vsrc@, fsrc@, final(gl).run_since(*old(gl)), outcome_view(program)),
{
    let ghost before = gl.trace();
    let vertex_shader = match load(gl, ShaderStage::Vertex, vsrc) {
        Ok(unit) => unit,
        Err(error) => {
            return Err(error);
        },
    };
    let ghost middle = gl.trace();
    let fragment_shader = match load(gl, ShaderStage::Fragment, fsrc) {
        Ok(unit) => unit,
        Err(error) => {
            let ghost late = gl.trace();
            gl.call(GlCall::DeleteShader { shader: vertex_shader.handle });
            proof {
                let first = middle.skip(before.len() as int);
                let second = late.skip(middle.len() as int);
                let run = gl.trace().skip(before.len() as int);
                let replies = replies_of(run);
                assert(calls_of(first).len() == 4);
                assert(calls_of(second).len() >= 1);
                assert(replies[0] == replies_of(first)[0]);
                assert(replies[3] == replies_of(first)[3]);
                assert(replies.skip(4)[0] == replies_of(second)[0]);
                assert(calls_of(second).len() >= 4 ==> replies.skip(4)[3] == replies_of(second)[3]);
                assert(calls_of(second).len() >= 6 ==> replies.skip(4)[4] == replies_of(second)[4]);
                assert(calls_of(run) =~= link_calls(vsrc@, fsrc@, replies));
            }
            return Err(error);
        },
    };
    let ghost late = gl.trace();
    let program = assemble(gl, vertex_shader, fragment_shader);
    proof {
        let first = middle.skip(before.len() as int);
        let second = late.skip(middle.len() as int);
        let third = gl.trace().skip(late.len() as int);
        let run = gl.trace().skip(before.len() as int);
        let replies = replies_of(run);
        assert(calls_of(first).len() == 4);
        assert(calls_of(second).len() == 4);
        assert(calls_of(third).len() >= 3);
        assert(replies[0] == replies_of(first)[0]);
        assert(replies[3] == replies_of(first)[3]);
        assert(replies.skip(4)[0] == replies_of(second)[0]);
        assert(replies.skip(4)[3] == replies_of(second)[3]);
        assert(replies.skip(8)[0] == replies_of(third)[0]);
        assert(calls_of(third).len() >= 5 ==> replies.skip(8)[4] == replies_of(third)[4]);
        assert(calls_of(third).len() >= 6 ==> replies.skip(8)[5] == replies_of(third)[5]);
        assert(calls_of(run) =~= link_calls(vsrc@, fsrc@, replies));
    }
    program
}

} // verus!
