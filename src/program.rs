use vstd::prelude::*;

use crate::command::{BuildError, GlCommand, Reply, SourceFault, Step};
use crate::shader::{
    compile_report, compile_report_text, contains_nul, decode_log, link_report,
    link_report_text, lossy_text, stage_constant_of, trimmed_nul, Shader, ShaderType,
    LOG_CAPACITY,
};

verus! {

/// A linked program object. Linking may have failed: that was reported while
/// the program was built, and the object is handed out either way.
#[derive(Clone, Debug, PartialEq, Eq)]
pub struct Program {
    id: u32,
}

impl Program {
    /// The program object this value stands for.
    pub closed spec fn handle(&self) -> u32 {
        self.id
    }

    pub fn id(&self) -> (r: u32)
        ensures
            r == self.handle(),
    {
        self.id
    }

    /// The command that makes this program the current one. It stays current
    /// until another program is made current.
    pub fn use_program(&self) -> (r: GlCommand)
        ensures
            r == (GlCommand::UseProgram { program: self.handle() }),
    {
        GlCommand::UseProgram { program: self.id }
    }

    /// The command that releases this program object.
    pub fn delete_program(&self) -> (r: GlCommand)
        ensures
            r == (GlCommand::DeleteProgram { program: self.handle() }),
    {
        GlCommand::DeleteProgram { program: self.id }
    }

    /// A program of a vertex and a fragment stage.
    pub fn graphics(vertex_shader: &String, fragment_shader: &String) -> (r: ProgramBuilder)
        ensures
            r.wf(),
            r.phase == Phase::Start,
            r.stages@ == seq![
                (*vertex_shader, ShaderType::VertexShader),
                (*fragment_shader, ShaderType::FragmentShader),
            ],
    {
        ProgramBuilder::with_stages(
            vec![
                (vertex_shader.clone(), ShaderType::VertexShader),
                (fragment_shader.clone(), ShaderType::FragmentShader),
            ],
        )
    }

    /// A program of vertex, fragment and geometry stages.
    pub fn graphics_with_geom(
        vertex_shader: &String,
        fragment_shader: &String,
        geometry_shader: &String,
    ) -> (r: ProgramBuilder)
        ensures
            r.wf(),
            r.phase == Phase::Start,
            r.stages@ == seq![
                (*vertex_shader, ShaderType::VertexShader),
                (*fragment_shader, ShaderType::FragmentShader),
                (*geometry_shader, ShaderType::GeometryShader),
            ],
    {
        ProgramBuilder::with_stages(
            vec![
                (vertex_shader.clone(), ShaderType::VertexShader),
                (fragment_shader.clone(), ShaderType::FragmentShader),
                (geometry_shader.clone(), ShaderType::GeometryShader),
            ],
        )
    }

    /// A program of vertex, fragment and both tessellation stages.
    pub fn graphics_with_tess(
        vertex_shader: &String,
        fragment_shader: &String,
        tess_evaluation_shader: &String,
        tess_control_shader: &String,
    ) -> (r: ProgramBuilder)
        ensures
            r.wf(),
            r.phase == Phase::Start,
            r.stages@ == seq![
                (*vertex_shader, ShaderType::VertexShader),
                (*fragment_shader, ShaderType::FragmentShader),
                (*tess_evaluation_shader, ShaderType::TesselationEvaluationShader),
                (*tess_control_shader, ShaderType::TesselationControlShader),
            ],
    {
        ProgramBuilder::with_stages(
            vec![
                (vertex_shader.clone(), ShaderType::VertexShader),
                (fragment_shader.clone(), ShaderType::FragmentShader),
                (tess_evaluation_shader.clone(), ShaderType::TesselationEvaluationShader),
                (tess_control_shader.clone(), ShaderType::TesselationControlShader),
            ],
        )
    }

    /// A program of vertex, fragment, both tessellation and geometry stages.
    pub fn graphics_with_tess_and_geom(
        vertex_shader: &String,
        fragment_shader: &String,
        tess_evaluation_shader: &String,
        tess_control_shader: &String,
        geometry_shader: &String,
    ) -> (r: ProgramBuilder)
        ensures
            r.wf(),
            r.phase == Phase::Start,
            r.stages@ == seq![
                (*vertex_shader, ShaderType::VertexShader),
                (*fragment_shader, ShaderType::FragmentShader),
                (*tess_evaluation_shader, ShaderType::TesselationEvaluationShader),
                (*tess_control_shader, ShaderType::TesselationControlShader),
                (*geometry_shader, ShaderType::GeometryShader),
            ],
    {
        ProgramBuilder::with_stages(
            vec![
                (vertex_shader.clone(), ShaderType::VertexShader),
                (fragment_shader.clone(), ShaderType::FragmentShader),
                (tess_evaluation_shader.clone(), ShaderType::TesselationEvaluationShader),
                (tess_control_shader.clone(), ShaderType::TesselationControlShader),
                (geometry_shader.clone(), ShaderType::GeometryShader),
            ],
        )
    }
}

/// Where a program construction stands: which reply it waits for.
#[derive(Clone, Copy, Debug, PartialEq, Eq, Structural)]
pub enum Phase {
    /// Nothing asked yet; the first reply is `Done`.
    Start,
    /// A shader object for the next stage was asked for.
    AwaitShader,
    /// The current stage's source file was asked for.
    AwaitSource,
    /// The current stage was compiled.
    AwaitCompile,
    /// The current stage's compile log was asked for.
    AwaitShaderLog,
    /// The current stage's compile failure was reported.
    AwaitShaderReport,
    /// The program object was asked for.
    AwaitProgram,
    /// Shader `index` is being attached.
    Attach { index: usize },
    /// The program is being linked.
    Link,
    /// The link log was asked for.
    AwaitProgramLog,
    /// The link failure was reported.
    AwaitLinkReport,
    /// Shader `index` is being released.
    Delete { index: usize },
    /// The program was handed out.
    Finished,
    /// The construction stopped on an error.
    Failed,
}

/// A program under construction. Each shader stage is created, given its
/// source and compiled in turn; then the program is created, every stage
/// attached, the program linked, and every stage released whether or not
/// linking succeeded. Compile and link failures are reported and do not
/// stop the construction; a missing or unusable source file does.
pub struct ProgramBuilder {
    /// Source path and stage of each shader, in the order of attachment.
    pub stages: Vec<(String, ShaderType)>,
    /// The shader objects created so far, one per stage from the first.
    pub shaders: Vec<Shader>,
    /// The program object, once created.
    pub program: u32,
    pub phase: Phase,
    /// The shader objects released so far.
    pub deleted: Ghost<Seq<u32>>,
}

/// The shape of a construction's state that holds the whole way through.
pub open spec fn builder_wf(
    stages: Seq<(String, ShaderType)>,
    shaders: Seq<Shader>,
    program: u32,
    phase: Phase,
    deleted: Seq<u32>,
) -> bool {
    let n = stages.len();
    let k = shaders.len();
    let ids = shaders.map_values(|s: Shader| s.id);
    &&& 2 <= n <= 5
    &&& k <= n
    &&& forall|i: int|
        0 <= i < k ==> (#[trigger] shaders[i]).path == stages[i].0 && shaders[i].kind == stages[i].1
            && shaders[i].id != 0
    &&& deleted.len() <= k
    &&& deleted == ids.take(deleted.len() as int)
    &&& match phase {
        Phase::Start => k == 0,
        Phase::AwaitShader => k < n && deleted.len() == 0,
        Phase::AwaitSource | Phase::AwaitCompile | Phase::AwaitShaderLog
        | Phase::AwaitShaderReport => 1 <= k && deleted.len() == 0,
        Phase::AwaitProgram => k == n && deleted.len() == 0,
        Phase::Attach { index } => k == n && index < n && program != 0 && deleted.len() == 0,
        Phase::Link | Phase::AwaitProgramLog | Phase::AwaitLinkReport => k == n && program != 0
            && deleted.len() == 0,
        Phase::Delete { index } => k == n && index < n && program != 0 && deleted.len() == index,
        Phase::Finished => k == n && program != 0 && deleted.len() == n,
        Phase::Failed => true,
    }
}

impl ProgramBuilder {
    pub open spec fn wf(&self) -> bool {
        builder_wf(self.stages@, self.shaders@, self.program, self.phase, self.deleted@)
    }

    /// The shader objects created so far.
    pub open spec fn shader_ids(&self) -> Seq<u32> {
        self.shaders@.map_values(|s: Shader| s.id)
    }

    /// The stage now being compiled: the last one created.
    pub open spec fn current(&self) -> Shader {
        self.shaders@.last()
    }

    fn with_stages(stages: Vec<(String, ShaderType)>) -> (r: ProgramBuilder)
        requires
            2 <= stages@.len() <= 5,
        ensures
            r.wf(),
            r.phase == Phase::Start,
            r.stages == stages,
    {
        proof {
            assert(Seq::<Shader>::empty().map_values(|s: Shader| s.id).take(0) =~= Seq::<u32>::empty());
        }
        ProgramBuilder {
            stages,
            shaders: Vec::new(),
            program: 0,
            phase: Phase::Start,
            deleted: Ghost(Seq::empty()),
        }
    }
}

impl ProgramBuilder {
    /// Takes the context's reply to the outstanding command and says what
    /// comes next: another command, the finished program, or the reason the
    /// construction stops.
    pub fn advance(&mut self, reply: Reply) -> (r: Step)
        requires
            old(self).wf(),
        ensures
            final(self).wf(),
            advances(*old(self), reply, *final(self), r),
    {
        match self.phase {
            Phase::Start => match reply {
                Reply::Done => self.next_stage(),
                _ => self.fail(BuildError::UnexpectedReply),
            },
            Phase::AwaitShader => match reply {
                Reply::Handle(h) => {
                    if h == 0 {
                        return self.fail(BuildError::CreationFailed);
                    }
                    let k = self.shaders.len();
                    let shader = Shader::new(&self.stages[k].0, self.stages[k].1, h);
                    let path = self.stages[k].0.clone();
                    self.shaders.push(shader);
                    self.phase = Phase::AwaitSource;
                    proof {
                        let ids = self.shader_ids();
                        assert(self.deleted@ =~= ids.take(0));
                    }
                    Step::Run(GlCommand::ReadSource { path })
                },
                _ => self.fail(BuildError::UnexpectedReply),
            },
            Phase::AwaitSource => {
                let k = self.shaders.len();
                match reply {
                    Reply::Source(bytes) => {
                        if contains_nul(&bytes) {
                            let path = self.shaders[k - 1].path.clone();
                            return self.fail(BuildError::EmbeddedNul { path });
                        }
                        self.phase = Phase::AwaitCompile;
                        Step::Run(
                            GlCommand::CompileShader { shader: self.shaders[k - 1].id, source: bytes },
                        )
                    },
                    Reply::SourceFailed(SourceFault::NotFound) => {
                        let path = self.shaders[k - 1].path.clone();
                        self.fail(BuildError::SourceNotFound { path })
                    },
                    Reply::SourceFailed(SourceFault::Unreadable) => {
                        let path = self.shaders[k - 1].path.clone();
                        self.fail(BuildError::SourceUnreadable { path })
                    },
                    _ => self.fail(BuildError::UnexpectedReply),
                }
            },
            Phase::AwaitCompile => match reply {
                Reply::Status(true) => self.next_stage(),
                Reply::Status(false) => {
                    let k = self.shaders.len();
                    self.phase = Phase::AwaitShaderLog;
                    Step::Run(
                        GlCommand::FetchShaderLog {
                            shader: self.shaders[k - 1].id,
                            capacity: LOG_CAPACITY,
                        },
                    )
                },
                _ => self.fail(BuildError::UnexpectedReply),
            },
            Phase::AwaitShaderLog => match reply {
                Reply::Log(buf) => {
                    let k = self.shaders.len();
                    let log = decode_log(&buf);
                    let message = compile_report(&self.shaders[k - 1].path, &log);
                    self.phase = Phase::AwaitShaderReport;
                    Step::Run(GlCommand::Report { message })
                },
                _ => self.fail(BuildError::UnexpectedReply),
            },
            Phase::AwaitShaderReport => match reply {
                Reply::Done => self.next_stage(),
                _ => self.fail(BuildError::UnexpectedReply),
            },
            Phase::AwaitProgram => match reply {
                Reply::Handle(p) => {
                    if p == 0 {
                        return self.fail(BuildError::CreationFailed);
                    }
                    self.program = p;
                    self.phase = Phase::Attach { index: 0 };
                    Step::Run(GlCommand::AttachShader { program: p, shader: self.shaders[0].id })
                },
                _ => self.fail(BuildError::UnexpectedReply),
            },
            Phase::Attach { index } => match reply {
                Reply::Done => {
                    if index + 1 < self.stages.len() {
                        self.phase = Phase::Attach { index: index + 1 };
                        Step::Run(
                            GlCommand::AttachShader {
                                program: self.program,
                                shader: self.shaders[index + 1].id,
                            },
                        )
                    } else {
                        self.phase = Phase::Link;
                        Step::Run(GlCommand::LinkProgram { program: self.program })
                    }
                },
                _ => self.fail(BuildError::UnexpectedReply),
            },
            Phase::Link => match reply {
                Reply::Status(true) => self.cleanup(),
                Reply::Status(false) => {
                    self.phase = Phase::AwaitProgramLog;
                    Step::Run(
                        GlCommand::FetchProgramLog { program: self.program, capacity: LOG_CAPACITY },
                    )
                },
                _ => self.fail(BuildError::UnexpectedReply),
            },
            Phase::AwaitProgramLog => match reply {
                Reply::Log(buf) => {
                    let log = decode_log(&buf);
                    let message = link_report(&log);
                    self.phase = Phase::AwaitLinkReport;
                    Step::Run(GlCommand::Report { message })
                },
                _ => self.fail(BuildError::UnexpectedReply),
            },
            Phase::AwaitLinkReport => match reply {
                Reply::Done => self.cleanup(),
                _ => self.fail(BuildError::UnexpectedReply),
            },
            Phase::Delete { index } => match reply {
                Reply::Done => {
                    let id = self.shaders[index].id;
                    self.deleted = Ghost(self.deleted@.push(id));
                    proof {
                        let ids = self.shader_ids();
                        assert(self.deleted@ =~= ids.take(index + 1));
                    }
                    if index + 1 < self.stages.len() {
                        self.phase = Phase::Delete { index: index + 1 };
                        Step::Run(GlCommand::DeleteShader { shader: self.shaders[index + 1].id })
                    } else {
                        self.phase = Phase::Finished;
                        Step::Built(Program { id: self.program })
                    }
                },
                _ => self.fail(BuildError::UnexpectedReply),
            },
            Phase::Finished | Phase::Failed => Step::Abort(BuildError::UnexpectedReply),
        }
    }

    fn fail(&mut self, e: BuildError) -> (r: Step)
        requires
            old(self).wf(),
        ensures
            final(self).wf(),
            stopped(*old(self), *final(self), r, e),
    {
        self.phase = Phase::Failed;
        Step::Abort(e)
    }

    fn next_stage(&mut self) -> (r: Step)
        requires
            old(self).wf(),
            old(self).deleted@.len() == 0,
            old(self).phase == Phase::Start ==> old(self).shaders@.len() == 0,
        ensures
            final(self).wf(),
            moves_to_next_stage(*old(self), *final(self), r),
    {
        let k = self.shaders.len();
        if k < self.stages.len() {
            let kind = self.stages[k].1;
            self.phase = Phase::AwaitShader;
            Step::Run(GlCommand::CreateShader { kind, stage: kind.stage_constant() })
        } else {
            self.phase = Phase::AwaitProgram;
            Step::Run(GlCommand::CreateProgram)
        }
    }

    fn cleanup(&mut self) -> (r: Step)
        requires
            old(self).wf(),
            old(self).shaders@.len() == old(self).stages@.len(),
            old(self).program != 0,
            old(self).deleted@.len() == 0,
        ensures
            final(self).wf(),
            moves_to_cleanup(*old(self), *final(self), r),
    {
        self.phase = Phase::Delete { index: 0 };
        Step::Run(GlCommand::DeleteShader { shader: self.shaders[0].id })
    }
}

/// Everything but the phase and the outcome is as it was.
pub open spec fn keeps(a: ProgramBuilder, b: ProgramBuilder) -> bool {
    &&& b.stages == a.stages
    &&& b.shaders == a.shaders
    &&& b.program == a.program
    &&& b.deleted == a.deleted
}

/// The construction stopped with `e`.
pub open spec fn stopped(a: ProgramBuilder, b: ProgramBuilder, r: Step, e: BuildError) -> bool {
    &&& keeps(a, b)
    &&& b.phase == Phase::Failed
    &&& r == Step::Abort(e)
}

/// The reply answers no outstanding command.
pub open spec fn unexpected(a: ProgramBuilder, b: ProgramBuilder, r: Step) -> bool {
    stopped(a, b, r, BuildError::UnexpectedReply)
}

/// The construction moves on to the next stage's shader object, or to the
/// program object once every stage has one.
pub open spec fn moves_to_next_stage(a: ProgramBuilder, b: ProgramBuilder, r: Step) -> bool {
    let k = a.shaders@.len();
    &&& keeps(a, b)
    &&& if k < a.stages@.len() {
        &&& b.phase == Phase::AwaitShader
        &&& r == Step::Run(
            GlCommand::CreateShader {
                kind: a.stages@[k as int].1,
                stage: stage_constant_of(a.stages@[k as int].1),
            },
        )
    } else {
        &&& b.phase == Phase::AwaitProgram
        &&& r == Step::Run(GlCommand::CreateProgram)
    }
}

/// The release of the first shader object is asked for.
pub open spec fn moves_to_cleanup(a: ProgramBuilder, b: ProgramBuilder, r: Step) -> bool {
    &&& keeps(a, b)
    &&& b.phase == (Phase::Delete { index: 0 })
    &&& r == Step::Run(GlCommand::DeleteShader { shader: a.shader_ids()[0] })
}

/// The step taken on `reply` from the state `a` to the state `b`, with
/// outcome `r`.
pub open spec fn advances(a: ProgramBuilder, reply: Reply, b: ProgramBuilder, r: Step) -> bool {
    let n = a.stages@.len();
    let k = a.shaders@.len();
    match a.phase {
        Phase::Start => match reply {
            Reply::Done => moves_to_next_stage(a, b, r),
            _ => unexpected(a, b, r),
        },
        Phase::AwaitShader => match reply {
            Reply::Handle(h) => if h == 0 {
                stopped(a, b, r, BuildError::CreationFailed)
            } else {
                &&& b.stages == a.stages
                &&& b.shaders@ == a.shaders@.push(
                    Shader { path: a.stages@[k as int].0, kind: a.stages@[k as int].1, id: h },
                )
                &&& b.program == a.program
                &&& b.deleted == a.deleted
                &&& b.phase == Phase::AwaitSource
                &&& r == Step::Run(GlCommand::ReadSource { path: a.stages@[k as int].0 })
            },
            _ => unexpected(a, b, r),
        },
        Phase::AwaitSource => match reply {
            Reply::Source(bytes) => if exists|i: int| 0 <= i < bytes@.len() && bytes@[i] == 0 {
                stopped(a, b, r, BuildError::EmbeddedNul { path: a.current().path })
            } else {
                &&& keeps(a, b)
                &&& b.phase == Phase::AwaitCompile
                &&& r == Step::Run(GlCommand::CompileShader { shader: a.current().id, source: bytes })
            },
            Reply::SourceFailed(SourceFault::NotFound) => stopped(
                a,
                b,
                r,
                BuildError::SourceNotFound { path: a.current().path },
            ),
            Reply::SourceFailed(SourceFault::Unreadable) => stopped(
                a,
                b,
                r,
                BuildError::SourceUnreadable { path: a.current().path },
            ),
            _ => unexpected(a, b, r),
        },
        Phase::AwaitCompile => match reply {
            Reply::Status(true) => moves_to_next_stage(a, b, r),
            Reply::Status(false) => {
                &&& keeps(a, b)
                &&& b.phase == Phase::AwaitShaderLog
                &&& r == Step::Run(
                    GlCommand::FetchShaderLog { shader: a.current().id, capacity: LOG_CAPACITY },
                )
            },
            _ => unexpected(a, b, r),
        },
        Phase::AwaitShaderLog => match reply {
            Reply::Log(buf) => {
                &&& keeps(a, b)
                &&& b.phase == Phase::AwaitShaderReport
                &&& r matches Step::Run(GlCommand::Report { message })
                &&& message@ == compile_report_text(a.current().path@, lossy_text(trimmed_nul(buf@)))
            },
            _ => unexpected(a, b, r),
        },
        Phase::AwaitShaderReport => match reply {
            Reply::Done => moves_to_next_stage(a, b, r),
            _ => unexpected(a, b, r),
        },
        Phase::AwaitProgram => match reply {
            Reply::Handle(p) => if p == 0 {
                stopped(a, b, r, BuildError::CreationFailed)
            } else {
                &&& b.stages == a.stages
                &&& b.shaders == a.shaders
                &&& b.program == p
                &&& b.deleted == a.deleted
                &&& b.phase == (Phase::Attach { index: 0 })
                &&& r == Step::Run(GlCommand::AttachShader { program: p, shader: a.shader_ids()[0] })
            },
            _ => unexpected(a, b, r),
        },
        Phase::Attach { index } => match reply {
            Reply::Done => {
                &&& keeps(a, b)
                &&& if index + 1 < n {
                    &&& b.phase == (Phase::Attach { index: (index + 1) as usize })
                    &&& r == Step::Run(
                        GlCommand::AttachShader {
                            program: a.program,
                            shader: a.shader_ids()[index + 1],
                        },
                    )
                } else {
                    &&& b.phase == Phase::Link
                    &&& r == Step::Run(GlCommand::LinkProgram { program: a.program })
                }
            },
            _ => unexpected(a, b, r),
        },
        Phase::Link => match reply {
            Reply::Status(true) => moves_to_cleanup(a, b, r),
            Reply::Status(false) => {
                &&& keeps(a, b)
                &&& b.phase == Phase::AwaitProgramLog
                &&& r == Step::Run(
                    GlCommand::FetchProgramLog { program: a.program, capacity: LOG_CAPACITY },
                )
            },
            _ => unexpected(a, b, r),
        },
        Phase::AwaitProgramLog => match reply {
            Reply::Log(buf) => {
                &&& keeps(a, b)
                &&& b.phase == Phase::AwaitLinkReport
                &&& r matches Step::Run(GlCommand::Report { message })
                &&& message@ == link_report_text(lossy_text(trimmed_nul(buf@)))
            },
            _ => unexpected(a, b, r),
        },
        Phase::AwaitLinkReport => match reply {
            Reply::Done => moves_to_cleanup(a, b, r),
            _ => unexpected(a, b, r),
        },
        Phase::Delete { index } => match reply {
            Reply::Done => {
                &&& b.stages == a.stages
                &&& b.shaders == a.shaders
                &&& b.program == a.program
                &&& b.deleted@ == a.deleted@.push(a.shader_ids()[index as int])
                &&& if index + 1 < n {
                    &&& b.phase == (Phase::Delete { index: (index + 1) as usize })
                    &&& r == Step::Run(GlCommand::DeleteShader { shader: a.shader_ids()[index + 1] })
                } else {
                    &&& b.phase == Phase::Finished
                    &&& r matches Step::Built(p)
                    &&& p.handle() == a.program
                }
            },
            _ => unexpected(a, b, r),
        },
        Phase::Finished | Phase::Failed => {
            &&& keeps(a, b)
            &&& b.phase == a.phase
            &&& r == Step::Abort(BuildError::UnexpectedReply)
        },
    }
}


/// Once a program is handed out, every shader object created for it has
/// been released, each once, in the order of creation.
pub proof fn lemma_finished_build_released_every_shader(b: ProgramBuilder)
    requires
        b.wf(),
        b.phase == Phase::Finished,
    ensures
        b.deleted@ == b.shader_ids(),
        b.shader_ids().len() == b.stages@.len(),
{
    assert(b.shader_ids().take(b.shader_ids().len() as int) =~= b.shader_ids());
}

/// Whether linking succeeds or fails, the construction goes on to release
/// the first shader object: at once on success, and after fetching and
/// reporting the log on failure.
pub proof fn lemma_cleanup_follows_link_either_way(
    a: ProgramBuilder,
    ok: ProgramBuilder,
    r_ok: Step,
    b: ProgramBuilder,
    r1: Step,
    buf: Vec<u8>,
    c: ProgramBuilder,
    r2: Step,
    d: ProgramBuilder,
    r3: Step,
)
    requires
        a.wf(),
        a.phase == Phase::Link,
        advances(a, Reply::Status(true), ok, r_ok),
        advances(a, Reply::Status(false), b, r1),
        advances(b, Reply::Log(buf), c, r2),
        advances(c, Reply::Done, d, r3),
    ensures
        ok.phase == (Phase::Delete { index: 0 }),
        d.phase == (Phase::Delete { index: 0 }),
        r_ok == Step::Run(GlCommand::DeleteShader { shader: a.shader_ids()[0] }),
        r3 == r_ok,
        r2 matches Step::Run(GlCommand::Report { .. }),
{
}

/// A stage that does not compile stops nothing: its log is fetched, one
/// report naming its source path is written, and the construction then goes
/// on as after a successful compile.
pub proof fn lemma_compile_failure_is_reported_once(
    a: ProgramBuilder,
    ok: ProgramBuilder,
    r_ok: Step,
    b: ProgramBuilder,
    r1: Step,
    buf: Vec<u8>,
    c: ProgramBuilder,
    r2: Step,
    d: ProgramBuilder,
    r3: Step,
)
    requires
        a.wf(),
        a.phase == Phase::AwaitCompile,
        advances(a, Reply::Status(true), ok, r_ok),
        advances(a, Reply::Status(false), b, r1),
        advances(b, Reply::Log(buf), c, r2),
        advances(c, Reply::Done, d, r3),
    ensures
        r1 == Step::Run(GlCommand::FetchShaderLog { shader: a.current().id, capacity: LOG_CAPACITY }),
        r2 matches Step::Run(GlCommand::Report { message }) && message@.subrange(
            25,
            25 + a.current().path@.len() as int,
        ) == a.current().path@,
        d.phase == ok.phase,
        r3 == r_ok,
        d.shaders == ok.shaders,
{
    let log = lossy_text(trimmed_nul(buf@));
    crate::shader::lemma_compile_report_names_path(a.current().path@, log);
}

/// A stage that compiles fetches no log and writes no report: the next
/// request is already the next stage's shader object, or the program object.
pub proof fn lemma_compile_success_is_silent(a: ProgramBuilder, b: ProgramBuilder, r: Step)
    requires
        a.wf(),
        a.phase == Phase::AwaitCompile,
        advances(a, Reply::Status(true), b, r),
    ensures
        r matches Step::Run(c) && (c is CreateShader || c is CreateProgram),
        b.shaders == a.shaders,
{
}

} // verus!
