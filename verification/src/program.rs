//! Shader programs: building one from source through a driver, and the
//! commands that use it afterwards.

use crate::command::{Command, CommandView, ObjectKind, Reply, ReplyView, ShaderStage};
use crate::command::{views, NO_LOCATION, NO_OBJECT, STATUS_OK};
use vstd::prelude::*;
use vstd::string::StringExecFns;

verus! {

/// Why a shader program could not be built.
#[derive(Debug, PartialEq, Eq)]
pub enum ProgramError {
    /// The driver could not create a shader or program object.
    CreationError,
    /// A shader did not compile, or the program did not link; the text is the
    /// driver's diagnostics.
    ShaderCompilationError(String),
    /// The program did not link. Kept for callers that tell the two apart; a
    /// build reports a failed link as
    /// [`ShaderCompilationError`](ProgramError::ShaderCompilationError).
    ProgramLinkageError(String),
}

/// The mathematical value of a [`ProgramError`].
pub enum ProgramErrorView {
    CreationError,
    ShaderCompilationError(Seq<char>),
    ProgramLinkageError(Seq<char>),
}

impl View for ProgramError {
    type V = ProgramErrorView;

    open spec fn view(&self) -> ProgramErrorView {
        match *self {
            ProgramError::CreationError => ProgramErrorView::CreationError,
            ProgramError::ShaderCompilationError(text) => ProgramErrorView::ShaderCompilationError(
                text@,
            ),
            ProgramError::ProgramLinkageError(text) => ProgramErrorView::ProgramLinkageError(
                text@,
            ),
        }
    }
}

impl ProgramError {
    /// What the error says of itself.
    pub open spec fn text(self) -> Seq<char> {
        match self {
            ProgramError::CreationError => "Shader/Program creation failed"@,
            ProgramError::ShaderCompilationError(log) => "Shader compilation: "@ + log@,
            ProgramError::ProgramLinkageError(log) => "Program linkage: "@ + log@,
        }
    }

    /// What the error says of itself: a line for the user, with the driver's
    /// diagnostics where there are any.
    pub fn message(&self) -> (message: String)
        ensures
            message@ == self.text(),
    {
        match self {
            ProgramError::CreationError => String::from_str("Shader/Program creation failed"),
            ProgramError::ShaderCompilationError(log) => String::from_str(
                "Shader compilation: ",
            ).concat(log.as_str()),
            ProgramError::ProgramLinkageError(log) => String::from_str("Program linkage: ").concat(
                log.as_str(),
            ),
        }
    }
}

/// The text of an optional label.
pub open spec fn label_text(label: Option<String>) -> Option<Seq<char>> {
    match label {
        Some(text) => Some(text@),
        None => None,
    }
}

/// The text of an optional borrowed label.
pub open spec fn str_label_text(label: Option<&str>) -> Option<Seq<char>> {
    match label {
        Some(text) => Some(text@),
        None => None,
    }
}

/// What is appended to a program's label to label one of its shaders.
pub open spec fn stage_suffix(stage: ShaderStage) -> Seq<char> {
    match stage {
        ShaderStage::Vertex => " - vertex shader"@,
        ShaderStage::Fragment => " - fragment shader"@,
    }
}

/// A linked shader program that lives in the driver.
#[derive(Debug, PartialEq, Eq)]
pub struct Program {
    id: u32,
    label: Option<String>,
}

/// The mathematical value of a [`Program`].
pub struct ProgramView {
    pub id: u32,
    pub label: Option<Seq<char>>,
}

impl View for Program {
    type V = ProgramView;

    closed spec fn view(&self) -> ProgramView {
        ProgramView { id: self.id, label: label_text(self.label) }
    }
}

/// Where a build stands: what the driver is doing for it right now.
#[derive(Clone, Copy, Debug, PartialEq, Eq, Structural)]
pub enum Phase {
    /// A shader object of the stage is being created.
    CreateShader(ShaderStage),
    /// The shader of the stage is being compiled.
    CompileShader(ShaderStage),
    /// The compiler's diagnostics for the stage are being fetched.
    ShaderLog(ShaderStage),
    /// The program object is being created.
    CreateProgram,
    /// The program is being linked.
    Link,
    /// The linker's diagnostics are being fetched.
    LinkLog,
    /// The program is being labelled.
    Label,
    /// The program is built.
    Ready,
    /// The driver could not create an object.
    CreationFailed,
    /// A compile or the link failed; the diagnostics are in.
    CompilationFailed,
}

/// The mathematical value of a [`ProgramBuild`].
pub struct ProgramBuildView {
    pub phase: Phase,
    pub vertex_source: Seq<char>,
    pub fragment_source: Seq<char>,
    pub label: Option<Seq<char>>,
    pub vertex: u32,
    pub fragment: u32,
    pub program: u32,
    pub log: Seq<char>,
}

impl ProgramBuildView {
    /// The build of a program from its two sources, before the driver has done
    /// anything for it.
    pub open spec fn start(
        vertex_source: Seq<char>,
        fragment_source: Seq<char>,
        label: Option<Seq<char>>,
    ) -> ProgramBuildView {
        ProgramBuildView {
            phase: Phase::CreateShader(ShaderStage::Vertex),
            vertex_source,
            fragment_source,
            label,
            vertex: NO_OBJECT,
            fragment: NO_OBJECT,
            program: NO_OBJECT,
            log: Seq::empty(),
        }
    }

    /// The source text of a stage.
    pub open spec fn source(self, stage: ShaderStage) -> Seq<char> {
        match stage {
            ShaderStage::Vertex => self.vertex_source,
            ShaderStage::Fragment => self.fragment_source,
        }
    }

    /// The shader object of a stage.
    pub open spec fn shader(self, stage: ShaderStage) -> u32 {
        match stage {
            ShaderStage::Vertex => self.vertex,
            ShaderStage::Fragment => self.fragment,
        }
    }

    /// The command that labels the shader of a stage, where the program has a
    /// label: the shader's label is the program's, then the stage's suffix.
    pub open spec fn shader_label(self, stage: ShaderStage) -> Seq<CommandView> {
        match self.label {
            Some(text) => seq![
                CommandView::ObjectLabel {
                    kind: ObjectKind::Shader,
                    object: self.shader(stage),
                    label: text + stage_suffix(stage),
                },
            ],
            None => Seq::empty(),
        }
    }

    /// What the driver has to execute in this phase, in order. The reply to the
    /// last command is what the build waits for.
    pub open spec fn commands(self) -> Seq<CommandView> {
        match self.phase {
            Phase::CreateShader(stage) => seq![CommandView::CreateShader { stage }],
            Phase::CompileShader(stage) => self.shader_label(stage) + seq![
                CommandView::ShaderSource { shader: self.shader(stage), source: self.source(stage) },
                CommandView::CompileShader { shader: self.shader(stage) },
                CommandView::CompileStatus { shader: self.shader(stage) },
            ],
            Phase::ShaderLog(stage) => seq![
                CommandView::ShaderInfoLog { shader: self.shader(stage) },
            ],
            Phase::CreateProgram => seq![CommandView::CreateProgram],
            Phase::Link => seq![
                CommandView::AttachShader { program: self.program, shader: self.vertex },
                CommandView::AttachShader { program: self.program, shader: self.fragment },
                CommandView::LinkProgram { program: self.program },
                CommandView::DetachShader { program: self.program, shader: self.vertex },
                CommandView::DetachShader { program: self.program, shader: self.fragment },
                CommandView::DeleteShader { shader: self.vertex },
                CommandView::DeleteShader { shader: self.fragment },
                CommandView::LinkStatus { program: self.program },
            ],
            Phase::LinkLog => seq![CommandView::ProgramInfoLog { program: self.program }],
            Phase::Label => match self.label {
                Some(text) => seq![
                    CommandView::ObjectLabel {
                        kind: ObjectKind::Program,
                        object: self.program,
                        label: text,
                    },
                ],
                None => Seq::empty(),
            },
            Phase::Ready | Phase::CreationFailed | Phase::CompilationFailed => Seq::empty(),
        }
    }

    /// Whether the build is over, one way or the other.
    pub open spec fn finished(self) -> bool {
        self.phase is Ready || self.phase is CreationFailed || self.phase is CompilationFailed
    }

    /// Whether the reply is of the kind that the phase waits for.
    pub open spec fn accepts(self, reply: ReplyView) -> bool {
        match self.phase {
            Phase::CreateShader(_) | Phase::CreateProgram => reply is Object,
            Phase::CompileShader(_) | Phase::Link => reply is Status,
            Phase::ShaderLog(_) | Phase::LinkLog => reply is InfoLog,
            Phase::Label => reply is Nothing,
            Phase::Ready | Phase::CreationFailed | Phase::CompilationFailed => false,
        }
    }

    /// The build with the phase replaced.
    pub open spec fn at(self, phase: Phase) -> ProgramBuildView {
        ProgramBuildView { phase, ..self }
    }

    /// The build after a reply that it accepts.
    pub open spec fn next(self, reply: ReplyView) -> ProgramBuildView {
        match (self.phase, reply) {
            (Phase::CreateShader(stage), ReplyView::Object(name)) => if name == NO_OBJECT {
                self.at(Phase::CreationFailed)
            } else {
                match stage {
                    ShaderStage::Vertex => ProgramBuildView {
                        phase: Phase::CompileShader(stage),
                        vertex: name,
                        ..self
                    },
                    ShaderStage::Fragment => ProgramBuildView {
                        phase: Phase::CompileShader(stage),
                        fragment: name,
                        ..self
                    },
                }
            },
            (Phase::CompileShader(stage), ReplyView::Status(status)) => if status != STATUS_OK {
                self.at(Phase::ShaderLog(stage))
            } else {
                match stage {
                    ShaderStage::Vertex => self.at(Phase::CreateShader(ShaderStage::Fragment)),
                    ShaderStage::Fragment => self.at(Phase::CreateProgram),
                }
            },
            (Phase::ShaderLog(_), ReplyView::InfoLog(text)) => ProgramBuildView {
                phase: Phase::CompilationFailed,
                log: text,
                ..self
            },
            (Phase::CreateProgram, ReplyView::Object(name)) => if name == NO_OBJECT {
                self.at(Phase::CreationFailed)
            } else {
                ProgramBuildView { phase: Phase::Link, program: name, ..self }
            },
            (Phase::Link, ReplyView::Status(status)) => if status != STATUS_OK {
                self.at(Phase::LinkLog)
            } else if self.label is Some {
                self.at(Phase::Label)
            } else {
                self.at(Phase::Ready)
            },
            (Phase::LinkLog, ReplyView::InfoLog(text)) => ProgramBuildView {
                phase: Phase::CompilationFailed,
                log: text,
                ..self
            },
            (Phase::Label, ReplyView::Nothing) => self.at(Phase::Ready),
            _ => self,
        }
    }

    /// What the build has come to, once it is over.
    pub open spec fn outcome(self) -> Option<Result<ProgramView, ProgramErrorView>> {
        match self.phase {
            Phase::Ready => Some(Ok(ProgramView { id: self.program, label: self.label })),
            Phase::CreationFailed => Some(Err(ProgramErrorView::CreationError)),
            Phase::CompilationFailed => Some(
                Err(ProgramErrorView::ShaderCompilationError(self.log)),
            ),
            _ => None,
        }
    }

    /// Whether the build takes each of the replies in turn.
    pub open spec fn accepts_all(self, replies: Seq<ReplyView>) -> bool
        decreases replies.len(),
    {
        replies.len() > 0 ==> self.accepts(replies.first()) && self.next(
            replies.first(),
        ).accepts_all(replies.drop_first())
    }

    /// The build after replies that it takes in turn.
    pub open spec fn after_all(self, replies: Seq<ReplyView>) -> ProgramBuildView
        decreases replies.len(),
    {
        if replies.len() == 0 {
            self
        } else {
            self.next(replies.first()).after_all(replies.drop_first())
        }
    }

    /// An upper bound on the replies that the build still takes.
    pub open spec fn replies_left(self) -> nat {
        match self.phase {
            Phase::CreateShader(ShaderStage::Vertex) => 10,
            Phase::CompileShader(ShaderStage::Vertex) => 9,
            Phase::ShaderLog(ShaderStage::Vertex) => 8,
            Phase::CreateShader(ShaderStage::Fragment) => 8,
            Phase::CompileShader(ShaderStage::Fragment) => 7,
            Phase::ShaderLog(ShaderStage::Fragment) => 6,
            Phase::CreateProgram => 6,
            Phase::Link => 5,
            Phase::LinkLog => 4,
            Phase::Label => 1,
            Phase::Ready | Phase::CreationFailed | Phase::CompilationFailed => 0,
        }
    }
}

/// A shader program in the making.
///
/// A build is a conversation with a driver. The driver executes
/// [`commands`](ProgramBuild::commands), hands the reply to the last of them to
/// [`advance`](ProgramBuild::advance), and goes on until the build
/// [`is_finished`](ProgramBuild::is_finished); then
/// [`finish`](ProgramBuild::finish) gives the program or the error.
#[derive(Debug)]
pub struct ProgramBuild {
    phase: Phase,
    vertex_source: String,
    fragment_source: String,
    label: Option<String>,
    vertex: u32,
    fragment: u32,
    program: u32,
    log: String,
}

impl View for ProgramBuild {
    type V = ProgramBuildView;

    closed spec fn view(&self) -> ProgramBuildView {
        ProgramBuildView {
            phase: self.phase,
            vertex_source: self.vertex_source@,
            fragment_source: self.fragment_source@,
            label: label_text(self.label),
            vertex: self.vertex,
            fragment: self.fragment,
            program: self.program,
            log: self.log@,
        }
    }
}

/// The outcome of a build as mathematical values.
pub open spec fn outcome_view(outcome: Option<Result<Program, ProgramError>>) -> Option<
    Result<ProgramView, ProgramErrorView>,
> {
    match outcome {
        Some(Ok(program)) => Some(Ok(program@)),
        Some(Err(error)) => Some(Err(error@)),
        None => None,
    }
}

impl ProgramBuild {
    /// The phase that the build is in.
    pub fn phase(&self) -> (phase: Phase)
        ensures
            phase == self@.phase,
    {
        self.phase
    }

    /// Whether the build is over: no command is left, and no reply is taken.
    pub fn is_finished(&self) -> (finished: bool)
        ensures
            finished == self@.finished(),
            finished == (self@.outcome() is Some),
            finished == (self@.replies_left() == 0),
    {
        match self.phase {
            Phase::Ready | Phase::CreationFailed | Phase::CompilationFailed => true,
            _ => false,
        }
    }

    /// The shader object of a stage.
    fn shader(&self, stage: ShaderStage) -> (name: u32)
        ensures
            name == self@.shader(stage),
    {
        match stage {
            ShaderStage::Vertex => self.vertex,
            ShaderStage::Fragment => self.fragment,
        }
    }

    /// The commands that compile the shader of a stage: its label, where the
    /// program has one, its source, the compile, and the question how it went.
    fn create_shader(&self, stage: ShaderStage) -> (commands: Vec<Command>)
        ensures
            views(commands@) == self@.shader_label(stage) + seq![
                CommandView::ShaderSource {
                    shader: self@.shader(stage),
                    source: self@.source(stage),
                },
                CommandView::CompileShader { shader: self@.shader(stage) },
                CommandView::CompileStatus { shader: self@.shader(stage) },
            ],
    {
        let shader = self.shader(stage);
        let mut commands: Vec<Command> = Vec::new();
        match &self.label {
            Some(text) => {
                let suffix = match stage {
                    ShaderStage::Vertex => " - vertex shader",
                    ShaderStage::Fragment => " - fragment shader",
                };
                let label = text.clone().concat(suffix);
                commands.push(Command::ObjectLabel { kind: ObjectKind::Shader, object: shader, label });
            },
            None => {},
        }
        let source = match stage {
            ShaderStage::Vertex => self.vertex_source.clone(),
            ShaderStage::Fragment => self.fragment_source.clone(),
        };
        commands.push(Command::ShaderSource { shader, source });
        commands.push(Command::CompileShader { shader });
        commands.push(Command::CompileStatus { shader });
        assert(views(commands@) =~= self@.shader_label(stage) + seq![
            CommandView::ShaderSource {
                shader: self@.shader(stage),
                source: self@.source(stage),
            },
            CommandView::CompileShader { shader: self@.shader(stage) },
            CommandView::CompileStatus { shader: self@.shader(stage) },
        ]);
        commands
    }

    /// What the driver has to execute now, in order. The reply to the last
    /// command goes to [`advance`](ProgramBuild::advance). A finished build
    /// asks for nothing.
    pub fn commands(&self) -> (commands: Vec<Command>)
        ensures
            views(commands@) == self@.commands(),
    {
        let program = self.program;
        let vertex = self.vertex;
        let fragment = self.fragment;
        let commands = match self.phase {
            Phase::CreateShader(stage) => vec![Command::CreateShader { stage }],
            Phase::CompileShader(stage) => self.create_shader(stage),
            Phase::ShaderLog(stage) => vec![Command::ShaderInfoLog { shader: self.shader(stage) }],
            Phase::CreateProgram => vec![Command::CreateProgram],
            Phase::Link => vec![
                Command::AttachShader { program, shader: vertex },
                Command::AttachShader { program, shader: fragment },
                Command::LinkProgram { program },
                Command::DetachShader { program, shader: vertex },
                Command::DetachShader { program, shader: fragment },
                Command::DeleteShader { shader: vertex },
                Command::DeleteShader { shader: fragment },
                Command::LinkStatus { program },
            ],
            Phase::LinkLog => vec![Command::ProgramInfoLog { program }],
            Phase::Label => match &self.label {
                Some(text) => vec![
                    Command::ObjectLabel {
                        kind: ObjectKind::Program,
                        object: program,
                        label: text.clone(),
                    },
                ],
                None => Vec::new(),
            },
            Phase::Ready | Phase::CreationFailed | Phase::CompilationFailed => Vec::new(),
        };
        assert(views(commands@) =~= self@.commands());
        commands
    }

    /// Takes the driver's reply to the last of the commands.
    ///
    /// A reply of the kind that the phase waits for moves the build on, and
    /// brings it nearer to its end. Any other reply is refused: the build stays
    /// as it was. A finished build refuses every reply.
    pub fn advance(&mut self, reply: Reply) -> (accepted: bool)
        ensures
            accepted == old(self)@.accepts(reply@),
            accepted ==> final(self)@ == old(self)@.next(reply@),
            accepted ==> final(self)@.replies_left() < old(self)@.replies_left(),
            !accepted ==> final(self)@ == old(self)@,
    {
        match (self.phase, reply) {
            (Phase::CreateShader(stage), Reply::Object(name)) => {
                if name == NO_OBJECT {
                    self.phase = Phase::CreationFailed;
                } else {
                    match stage {
                        ShaderStage::Vertex => {
                            self.vertex = name;
                        },
                        ShaderStage::Fragment => {
                            self.fragment = name;
                        },
                    }
                    self.phase = Phase::CompileShader(stage);
                }
                true
            },
            (Phase::CompileShader(stage), Reply::Status(status)) => {
                if status != STATUS_OK {
                    self.phase = Phase::ShaderLog(stage);
                } else {
                    match stage {
                        ShaderStage::Vertex => {
                            self.phase = Phase::CreateShader(ShaderStage::Fragment);
                        },
                        ShaderStage::Fragment => {
                            self.phase = Phase::CreateProgram;
                        },
                    }
                }
                true
            },
            (Phase::ShaderLog(_), Reply::InfoLog(text)) => {
                self.log = text;
                self.phase = Phase::CompilationFailed;
                true
            },
            (Phase::CreateProgram, Reply::Object(name)) => {
                if name == NO_OBJECT {
                    self.phase = Phase::CreationFailed;
                } else {
                    self.program = name;
                    self.phase = Phase::Link;
                }
                true
            },
            (Phase::Link, Reply::Status(status)) => {
                if status != STATUS_OK {
                    self.phase = Phase::LinkLog;
                } else if self.label.is_some() {
                    self.phase = Phase::Label;
                } else {
                    self.phase = Phase::Ready;
                }
                true
            },
            (Phase::LinkLog, Reply::InfoLog(text)) => {
                self.log = text;
                self.phase = Phase::CompilationFailed;
                true
            },
            (Phase::Label, Reply::Nothing) => {
                self.phase = Phase::Ready;
                true
            },
            _ => false,
        }
    }

    /// Ends the build: the program where it was built, the error where it
    /// failed, and nothing while the driver still has work to do for it.
    pub fn finish(self) -> (outcome: Option<Result<Program, ProgramError>>)
        ensures
            outcome_view(outcome) == self@.outcome(),
    {
        match self.phase {
            Phase::Ready => Some(Ok(Program { id: self.program, label: self.label })),
            Phase::CreationFailed => Some(Err(ProgramError::CreationError)),
            Phase::CompilationFailed => Some(Err(ProgramError::ShaderCompilationError(self.log))),
            _ => None,
        }
    }
}

impl Program {
    /// Starts the build of a program from the source of its two shaders.
    ///
    /// The vertex shader is compiled first, then the fragment shader, then the
    /// two are linked; the first failure ends the build.
    pub fn from_source(vertex: &str, fragment: &str, label: Option<&str>) -> (build: ProgramBuild)
        ensures
            build@ == ProgramBuildView::start(vertex@, fragment@, str_label_text(label)),
    {
        let label = match label {
            Some(text) => Some(String::from_str(text)),
            None => None,
        };
        ProgramBuild {
            phase: Phase::CreateShader(ShaderStage::Vertex),
            vertex_source: String::from_str(vertex),
            fragment_source: String::from_str(fragment),
            label,
            vertex: NO_OBJECT,
            fragment: NO_OBJECT,
            program: NO_OBJECT,
            log: String::new(),
        }
    }

    /// The command that makes this program the current one.
    pub fn bind(&self) -> (command: Command)
        ensures
            command@ == (CommandView::UseProgram { program: self@.id }),
    {
        Command::UseProgram { program: self.id }
    }

    /// The command that leaves no program current.
    pub fn unbind(&self) -> (command: Command)
        ensures
            command@ == (CommandView::UseProgram { program: NO_OBJECT }),
    {
        Command::UseProgram { program: NO_OBJECT }
    }

    /// The command that asks the driver where the uniform of that name is.
    /// Its reply goes to [`get_unifrom`](Program::get_unifrom).
    pub fn uniform_query(&self, name: &str) -> (command: Command)
        ensures
            command@ == (CommandView::UniformLocation { program: self@.id, name: name@ }),
    {
        Command::UniformLocation { program: self.id, name: String::from_str(name) }
    }

    /// Reads the driver's reply to a [`uniform_query`](Program::uniform_query):
    /// the location, unless the program has no uniform of that name. A reply
    /// of another kind gives no location.
    pub fn get_unifrom(&self, reply: &Reply) -> (location: Option<i32>)
        ensures
            location == match reply@ {
                ReplyView::Location(at) => if at == NO_LOCATION {
                    None
                } else {
                    Some(at)
                },
                _ => None,
            },
    {
        match reply {
            Reply::Location(at) => if *at == NO_LOCATION {
                None
            } else {
                Some(*at)
            },
            _ => None,
        }
    }

    /// Gives the program up: the command that deletes it. The program is
    /// consumed, so it is released once.
    pub fn release(self) -> (command: Command)
        ensures
            command@ == (CommandView::DeleteProgram { program: self@.id }),
    {
        Command::DeleteProgram { program: self.id }
    }

    /// The name of the program object.
    pub fn id(&self) -> (id: u32)
        ensures
            id == self@.id,
    {
        self.id
    }

    /// The label that the program was built with.
    pub fn label(&self) -> (label: Option<&str>)
        ensures
            str_label_text(label) == self@.label,
    {
        match &self.label {
            Some(text) => Some(text.as_str()),
            None => None,
        }
    }
}

/// A driver that cannot create a shader or program object ends the build
/// with a creation error, whatever it has done before.
pub proof fn refused_object_is_creation_error(build: ProgramBuildView)
    requires
        build.phase is CreateShader || build.phase is CreateProgram,
    ensures
        build.accepts(ReplyView::Object(NO_OBJECT)),
        build.next(ReplyView::Object(NO_OBJECT)).outcome() == Some(
            Err::<ProgramView, ProgramErrorView>(ProgramErrorView::CreationError),
        ),
{
}

/// A shader that does not compile ends the build with a compilation error that
/// carries the compiler's diagnostics as the driver gave them.
pub proof fn failed_compile_reports_diagnostics(
    build: ProgramBuildView,
    status: i32,
    diagnostics: Seq<char>,
)
    requires
        build.phase is CompileShader,
        status != STATUS_OK,
    ensures
        build.accepts(ReplyView::Status(status)),
        build.next(ReplyView::Status(status)).accepts(ReplyView::InfoLog(diagnostics)),
        build.next(ReplyView::Status(status)).next(ReplyView::InfoLog(diagnostics)).outcome()
            == Some(
            Err::<ProgramView, ProgramErrorView>(
                ProgramErrorView::ShaderCompilationError(diagnostics),
            ),
        ),
{
}

/// A program that does not link ends the build with a compilation error that
/// carries the linker's diagnostics as the driver gave them.
pub proof fn failed_link_reports_diagnostics(
    build: ProgramBuildView,
    status: i32,
    diagnostics: Seq<char>,
)
    requires
        build.phase is Link,
        status != STATUS_OK,
    ensures
        build.accepts(ReplyView::Status(status)),
        build.next(ReplyView::Status(status)).accepts(ReplyView::InfoLog(diagnostics)),
        build.next(ReplyView::Status(status)).next(ReplyView::InfoLog(diagnostics)).outcome()
            == Some(
            Err::<ProgramView, ProgramErrorView>(
                ProgramErrorView::ShaderCompilationError(diagnostics),
            ),
        ),
{
}

/// With a driver that creates every object and reports every compile and the
/// link as good, the build gives the program that the driver created, under
/// the label that was asked for.
pub proof fn clean_run_builds_program(
    vertex_source: Seq<char>,
    fragment_source: Seq<char>,
    label: Option<Seq<char>>,
    vertex: u32,
    fragment: u32,
    program: u32,
)
    requires
        vertex != NO_OBJECT,
        fragment != NO_OBJECT,
        program != NO_OBJECT,
    ensures
        ({
            let linked = ProgramBuildView::start(vertex_source, fragment_source, label).next(
                ReplyView::Object(vertex),
            ).next(ReplyView::Status(STATUS_OK)).next(ReplyView::Object(fragment)).next(
                ReplyView::Status(STATUS_OK),
            ).next(ReplyView::Object(program)).next(ReplyView::Status(STATUS_OK));
            let built = if label is Some {
                linked.next(ReplyView::Nothing)
            } else {
                linked
            };
            built.outcome() == Some(
                Ok::<ProgramView, ProgramErrorView>(ProgramView { id: program, label }),
            )
        }),
{
}

/// A build takes no more replies than its bound says: whatever the driver
/// answers, the build is over after ten replies at most, and a build that has
/// taken as many replies as its bound is over.
pub proof fn build_ends_within_its_bound(build: ProgramBuildView, replies: Seq<ReplyView>)
    requires
        build.accepts_all(replies),
    ensures
        replies.len() + build.after_all(replies).replies_left() <= build.replies_left(),
        build.replies_left() <= 10,
        replies.len() == build.replies_left() ==> build.after_all(replies).finished(),
    decreases replies.len(),
{
    if replies.len() > 0 {
        build_ends_within_its_bound(build.next(replies.first()), replies.drop_first());
    }
}

/// A build that is over takes no further reply, and asks for no command.
pub proof fn finished_build_is_final(build: ProgramBuildView, reply: ReplyView)
    requires
        build.finished(),
    ensures
        !build.accepts(reply),
        build.commands() == Seq::<CommandView>::empty(),
        build.outcome() is Some,
{
}

} // verus!
