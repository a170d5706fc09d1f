use rugl::{BuildError, GlCommand, Phase, Program, ProgramBuilder, Reply, SourceFault, Step};

/// A scripted graphics context: it hands out handles in sequence, serves
/// sources from a table, and answers compile and link requests as told.
struct FakeContext {
    next_handle: u32,
    sources: Vec<(String, Result<Vec<u8>, SourceFault>)>,
    failing_compiles: Vec<u32>,
    link_ok: bool,
    log: Vec<u8>,
    commands: Vec<GlCommand>,
    live_shaders: Vec<u32>,
    reports: Vec<String>,
}

impl FakeContext {
    fn new() -> FakeContext {
        FakeContext {
            next_handle: 1,
            sources: Vec::new(),
            failing_compiles: Vec::new(),
            link_ok: true,
            log: Vec::new(),
            commands: Vec::new(),
            live_shaders: Vec::new(),
            reports: Vec::new(),
        }
    }

    fn with_source(mut self, path: &str, text: &str) -> FakeContext {
        self.sources.push((path.to_string(), Ok(text.as_bytes().to_vec())));
        self
    }

    fn answer(&mut self, command: &GlCommand) -> Reply {
        self.commands.push(command.clone());
        match command {
            GlCommand::CreateShader { .. } => {
                let h = self.next_handle;
                self.next_handle += 1;
                self.live_shaders.push(h);
                Reply::Handle(h)
            }
            GlCommand::CreateProgram => {
                let h = self.next_handle;
                self.next_handle += 1;
                Reply::Handle(h)
            }
            GlCommand::ReadSource { path } => {
                match self.sources.iter().find(|(p, _)| p == path) {
                    Some((_, Ok(bytes))) => Reply::Source(bytes.clone()),
                    Some((_, Err(fault))) => Reply::SourceFailed(*fault),
                    None => Reply::SourceFailed(SourceFault::NotFound),
                }
            }
            GlCommand::CompileShader { shader, .. } => {
                Reply::Status(!self.failing_compiles.contains(shader))
            }
            GlCommand::LinkProgram { .. } => Reply::Status(self.link_ok),
            GlCommand::FetchShaderLog { capacity, .. }
            | GlCommand::FetchProgramLog { capacity, .. } => {
                let mut buf = vec![0u8; *capacity];
                buf[..self.log.len()].copy_from_slice(&self.log);
                Reply::Log(buf)
            }
            GlCommand::Report { message } => {
                self.reports.push(message.clone());
                Reply::Done
            }
            GlCommand::DeleteShader { shader } => {
                self.live_shaders.retain(|s| s != shader);
                Reply::Done
            }
            _ => Reply::Done,
        }
    }

    fn run(&mut self, mut builder: ProgramBuilder) -> Result<Program, BuildError> {
        let mut reply = Reply::Done;
        loop {
            match builder.advance(reply) {
                Step::Run(command) => reply = self.answer(&command),
                Step::Built(program) => return Ok(program),
                Step::Abort(error) => return Err(error),
            }
        }
    }
}

fn s(text: &str) -> String {
    text.to_string()
}

#[test]
fn valid_pair_builds_without_reports() {
    let mut ctx = FakeContext::new()
        .with_source("v.glsl", "void main() {}")
        .with_source("f.glsl", "void main() {}");
    let program = ctx.run(Program::graphics(&s("v.glsl"), &s("f.glsl"))).unwrap();
    assert_eq!(program.id(), 3);
    assert!(ctx.reports.is_empty());
    assert_eq!(
        ctx.commands,
        vec![
            GlCommand::CreateShader { kind: rugl::ShaderType::VertexShader, stage: 0x8B31 },
            GlCommand::ReadSource { path: s("v.glsl") },
            GlCommand::CompileShader { shader: 1, source: b"void main() {}".to_vec() },
            GlCommand::CreateShader { kind: rugl::ShaderType::FragmentShader, stage: 0x8B30 },
            GlCommand::ReadSource { path: s("f.glsl") },
            GlCommand::CompileShader { shader: 2, source: b"void main() {}".to_vec() },
            GlCommand::CreateProgram,
            GlCommand::AttachShader { program: 3, shader: 1 },
            GlCommand::AttachShader { program: 3, shader: 2 },
            GlCommand::LinkProgram { program: 3 },
            GlCommand::DeleteShader { shader: 1 },
            GlCommand::DeleteShader { shader: 2 },
        ]
    );
}

#[test]
fn compile_failure_reports_once_with_path_and_goes_on() {
    let mut ctx = FakeContext::new()
        .with_source("v.glsl", "void main() {")
        .with_source("f.glsl", "void main() {}");
    ctx.failing_compiles.push(1);
    ctx.log = b"0:1: syntax error".to_vec();
    let program = ctx.run(Program::graphics(&s("v.glsl"), &s("f.glsl"))).unwrap();
    assert_eq!(program.id(), 3);
    assert_eq!(ctx.reports.len(), 1);
    assert!(ctx.reports[0].contains("v.glsl"));
    assert_eq!(ctx.reports[0], "Failed to compile shader v.glsl:\n\t0:1: syntax error\n");
    assert!(ctx.commands.contains(&GlCommand::FetchShaderLog { shader: 1, capacity: 1024 }));
    assert!(ctx.live_shaders.is_empty());
}

#[test]
fn link_failure_reports_and_still_releases_every_shader() {
    let mut ctx = FakeContext::new()
        .with_source("v.glsl", "a")
        .with_source("f.glsl", "b");
    ctx.link_ok = false;
    ctx.log = b"link error".to_vec();
    let program = ctx.run(Program::graphics(&s("v.glsl"), &s("f.glsl"))).unwrap();
    assert_eq!(program.id(), 3);
    assert_eq!(ctx.reports, vec![s("Failed to link the program:\n\tlink error\n")]);
    assert!(ctx.live_shaders.is_empty());
    let n = ctx.commands.len();
    assert_eq!(ctx.commands[n - 2], GlCommand::DeleteShader { shader: 1 });
    assert_eq!(ctx.commands[n - 1], GlCommand::DeleteShader { shader: 2 });
}

#[test]
fn every_variant_attaches_its_stages_in_order_and_releases_them() {
    let paths = ["v", "f", "te", "tc", "g"];
    let mut ctx = FakeContext::new();
    for p in paths {
        ctx = ctx.with_source(p, "x");
    }
    let program = ctx
        .run(Program::graphics_with_tess_and_geom(&s("v"), &s("f"), &s("te"), &s("tc"), &s("g")))
        .unwrap();
    assert_eq!(program.id(), 6);
    let stages: Vec<u32> = ctx
        .commands
        .iter()
        .filter_map(|c| match c {
            GlCommand::CreateShader { stage, .. } => Some(*stage),
            _ => None,
        })
        .collect();
    assert_eq!(stages, vec![0x8B31, 0x8B30, 0x8E87, 0x8E88, 0x8DD9]);
    let attached: Vec<u32> = ctx
        .commands
        .iter()
        .filter_map(|c| match c {
            GlCommand::AttachShader { program: 6, shader } => Some(*shader),
            _ => None,
        })
        .collect();
    assert_eq!(attached, vec![1, 2, 3, 4, 5]);
    assert!(ctx.live_shaders.is_empty());

    let mut ctx = FakeContext::new().with_source("v", "x").with_source("f", "x").with_source("g", "x");
    assert_eq!(ctx.run(Program::graphics_with_geom(&s("v"), &s("f"), &s("g"))).unwrap().id(), 4);
    assert!(ctx.live_shaders.is_empty());

    let mut ctx = FakeContext::new();
    for p in ["v", "f", "te", "tc"] {
        ctx = ctx.with_source(p, "x");
    }
    let program = ctx.run(Program::graphics_with_tess(&s("v"), &s("f"), &s("te"), &s("tc"))).unwrap();
    assert_eq!(program.id(), 5);
    assert!(ctx.live_shaders.is_empty());
}

#[test]
fn missing_source_stops_the_build() {
    let mut ctx = FakeContext::new().with_source("v.glsl", "x");
    let err = ctx.run(Program::graphics(&s("v.glsl"), &s("nope.glsl"))).unwrap_err();
    assert_eq!(err, BuildError::SourceNotFound { path: s("nope.glsl") });
}

#[test]
fn unreadable_source_stops_the_build() {
    let mut ctx = FakeContext::new().with_source("f.glsl", "x");
    ctx.sources.push((s("v.glsl"), Err(SourceFault::Unreadable)));
    let err = ctx.run(Program::graphics(&s("v.glsl"), &s("f.glsl"))).unwrap_err();
    assert_eq!(err, BuildError::SourceUnreadable { path: s("v.glsl") });
}

#[test]
fn source_with_nul_stops_the_build() {
    let mut ctx = FakeContext::new().with_source("v.glsl", "ab\0c").with_source("f.glsl", "x");
    let err = ctx.run(Program::graphics(&s("v.glsl"), &s("f.glsl"))).unwrap_err();
    assert_eq!(err, BuildError::EmbeddedNul { path: s("v.glsl") });
}

#[test]
fn null_shader_object_stops_the_build() {
    let mut b = Program::graphics(&s("v"), &s("f"));
    assert!(matches!(b.advance(Reply::Done), Step::Run(GlCommand::CreateShader { .. })));
    assert_eq!(b.advance(Reply::Handle(0)), Step::Abort(BuildError::CreationFailed));
    assert_eq!(b.phase, Phase::Failed);
    assert_eq!(b.advance(Reply::Done), Step::Abort(BuildError::UnexpectedReply));
}

#[test]
fn reply_out_of_turn_stops_the_build() {
    let mut b = Program::graphics(&s("v"), &s("f"));
    assert_eq!(b.advance(Reply::Status(true)), Step::Abort(BuildError::UnexpectedReply));
    assert_eq!(b.phase, Phase::Failed);
}

#[test]
fn program_commands_name_the_program() {
    let mut ctx = FakeContext::new().with_source("v", "x").with_source("f", "x");
    let program = ctx.run(Program::graphics(&s("v"), &s("f"))).unwrap();
    assert_eq!(program.use_program(), GlCommand::UseProgram { program: 3 });
    assert_eq!(program.delete_program(), GlCommand::DeleteProgram { program: 3 });
}
