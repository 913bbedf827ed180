use gl_playground::command::{Command, ObjectKind, Reply, ShaderStage};
use gl_playground::program::{Phase, Program, ProgramBuild, ProgramError};

fn build_to_link(label: Option<&str>) -> ProgramBuild {
    let mut build = Program::from_source("void main() {}", "void main() { }", label);
    assert!(build.advance(Reply::Object(11)));
    assert!(build.advance(Reply::Status(1)));
    assert!(build.advance(Reply::Object(12)));
    assert!(build.advance(Reply::Status(1)));
    assert!(build.advance(Reply::Object(13)));
    build
}

#[test]
fn build_starts_by_creating_the_vertex_shader() {
    let build = Program::from_source("v", "f", None);
    assert_eq!(build.phase(), Phase::CreateShader(ShaderStage::Vertex));
    assert!(!build.is_finished());
    assert_eq!(build.commands(), vec![Command::CreateShader { stage: ShaderStage::Vertex }]);
}

#[test]
fn compile_commands_without_label() {
    let mut build = Program::from_source("vertex text", "fragment text", None);
    assert!(build.advance(Reply::Object(5)));
    assert_eq!(build.phase(), Phase::CompileShader(ShaderStage::Vertex));
    assert_eq!(
        build.commands(),
        vec![
            Command::ShaderSource { shader: 5, source: String::from("vertex text") },
            Command::CompileShader { shader: 5 },
            Command::CompileStatus { shader: 5 },
        ]
    );
}

#[test]
fn compile_commands_label_each_shader_after_its_stage() {
    let mut build = Program::from_source("vertex text", "fragment text", Some("Basic Shader"));
    assert!(build.advance(Reply::Object(5)));
    assert_eq!(
        build.commands(),
        vec![
            Command::ObjectLabel {
                kind: ObjectKind::Shader,
                object: 5,
                label: String::from("Basic Shader - vertex shader"),
            },
            Command::ShaderSource { shader: 5, source: String::from("vertex text") },
            Command::CompileShader { shader: 5 },
            Command::CompileStatus { shader: 5 },
        ]
    );
    assert!(build.advance(Reply::Status(1)));
    assert_eq!(build.commands(), vec![Command::CreateShader { stage: ShaderStage::Fragment }]);
    assert!(build.advance(Reply::Object(6)));
    assert_eq!(
        build.commands(),
        vec![
            Command::ObjectLabel {
                kind: ObjectKind::Shader,
                object: 6,
                label: String::from("Basic Shader - fragment shader"),
            },
            Command::ShaderSource { shader: 6, source: String::from("fragment text") },
            Command::CompileShader { shader: 6 },
            Command::CompileStatus { shader: 6 },
        ]
    );
}

#[test]
fn link_commands_attach_link_detach_and_delete() {
    let build = build_to_link(None);
    assert_eq!(build.phase(), Phase::Link);
    assert_eq!(
        build.commands(),
        vec![
            Command::AttachShader { program: 13, shader: 11 },
            Command::AttachShader { program: 13, shader: 12 },
            Command::LinkProgram { program: 13 },
            Command::DetachShader { program: 13, shader: 11 },
            Command::DetachShader { program: 13, shader: 12 },
            Command::DeleteShader { shader: 11 },
            Command::DeleteShader { shader: 12 },
            Command::LinkStatus { program: 13 },
        ]
    );
}

#[test]
fn clean_build_without_label_gives_the_program() {
    let mut build = build_to_link(None);
    assert!(build.advance(Reply::Status(1)));
    assert!(build.is_finished());
    assert_eq!(build.commands(), Vec::<Command>::new());
    let program = build.finish().expect("finished").expect("built");
    assert_eq!(program.id(), 13);
    assert_eq!(program.label(), None);
}

#[test]
fn clean_build_with_label_labels_the_program_last() {
    let mut build = build_to_link(Some("Basic Shader"));
    assert!(build.advance(Reply::Status(1)));
    assert_eq!(build.phase(), Phase::Label);
    assert!(!build.is_finished());
    assert_eq!(
        build.commands(),
        vec![Command::ObjectLabel {
            kind: ObjectKind::Program,
            object: 13,
            label: String::from("Basic Shader"),
        }]
    );
    assert!(build.advance(Reply::Nothing));
    assert!(build.is_finished());
    let program = build.finish().expect("finished").expect("built");
    assert_eq!(program.id(), 13);
    assert_eq!(program.label(), Some("Basic Shader"));
}

#[test]
fn invalid_vertex_shader_gives_compilation_error_with_diagnostics() {
    let mut build = Program::from_source("this is not glsl", "void main() {}", None);
    assert!(build.advance(Reply::Object(1)));
    assert!(build.advance(Reply::Status(0)));
    assert_eq!(build.phase(), Phase::ShaderLog(ShaderStage::Vertex));
    assert_eq!(build.commands(), vec![Command::ShaderInfoLog { shader: 1 }]);
    assert!(build.advance(Reply::InfoLog(String::from("0:1(1): error: syntax error"))));
    assert!(build.is_finished());
    match build.finish() {
        Some(Err(ProgramError::ShaderCompilationError(text))) => {
            assert!(!text.is_empty());
            assert_eq!(text, "0:1(1): error: syntax error");
        }
        other => panic!("unexpected outcome: {:?}", other),
    }
}

#[test]
fn invalid_fragment_shader_gives_compilation_error_with_diagnostics() {
    let mut build = Program::from_source("void main() {}", "nonsense", None);
    assert!(build.advance(Reply::Object(1)));
    assert!(build.advance(Reply::Status(1)));
    assert!(build.advance(Reply::Object(2)));
    assert!(build.advance(Reply::Status(0)));
    assert_eq!(build.commands(), vec![Command::ShaderInfoLog { shader: 2 }]);
    assert!(build.advance(Reply::InfoLog(String::from("bad fragment"))));
    assert_eq!(
        build.finish(),
        Some(Err(ProgramError::ShaderCompilationError(String::from("bad fragment"))))
    );
}

#[test]
fn failed_link_gives_compilation_error_with_diagnostics() {
    let mut build = build_to_link(Some("labelled"));
    assert!(build.advance(Reply::Status(0)));
    assert_eq!(build.phase(), Phase::LinkLog);
    assert_eq!(build.commands(), vec![Command::ProgramInfoLog { program: 13 }]);
    assert!(build.advance(Reply::InfoLog(String::from("unresolved symbol"))));
    assert_eq!(
        build.finish(),
        Some(Err(ProgramError::ShaderCompilationError(String::from("unresolved symbol"))))
    );
}

#[test]
fn shader_that_cannot_be_created_gives_creation_error() {
    let mut build = Program::from_source("v", "f", None);
    assert!(build.advance(Reply::Object(0)));
    assert_eq!(build.phase(), Phase::CreationFailed);
    assert!(build.is_finished());
    assert_eq!(build.finish(), Some(Err(ProgramError::CreationError)));
}

#[test]
fn program_that_cannot_be_created_gives_creation_error() {
    let mut build = Program::from_source("v", "f", None);
    assert!(build.advance(Reply::Object(1)));
    assert!(build.advance(Reply::Status(1)));
    assert!(build.advance(Reply::Object(2)));
    assert!(build.advance(Reply::Status(1)));
    assert_eq!(build.commands(), vec![Command::CreateProgram]);
    assert!(build.advance(Reply::Object(0)));
    assert_eq!(build.finish(), Some(Err(ProgramError::CreationError)));
}

#[test]
fn reply_of_the_wrong_kind_is_refused_and_changes_nothing() {
    let mut build = Program::from_source("v", "f", None);
    assert!(!build.advance(Reply::Status(1)));
    assert!(!build.advance(Reply::Nothing));
    assert!(!build.advance(Reply::InfoLog(String::from("x"))));
    assert!(!build.advance(Reply::Location(3)));
    assert_eq!(build.phase(), Phase::CreateShader(ShaderStage::Vertex));
    assert!(build.advance(Reply::Object(4)));
    assert!(!build.advance(Reply::Object(5)));
    assert_eq!(build.phase(), Phase::CompileShader(ShaderStage::Vertex));
}

#[test]
fn finished_build_refuses_every_reply() {
    let mut build = build_to_link(None);
    assert!(build.advance(Reply::Status(1)));
    assert!(!build.advance(Reply::Nothing));
    assert!(!build.advance(Reply::Object(1)));
    assert!(!build.advance(Reply::Status(1)));
    assert_eq!(build.phase(), Phase::Ready);
}

#[test]
fn unfinished_build_has_no_outcome() {
    let build = build_to_link(None);
    assert_eq!(build.finish(), None);
}

#[test]
fn status_other_than_true_counts_as_failure() {
    let mut build = Program::from_source("v", "f", None);
    assert!(build.advance(Reply::Object(1)));
    assert!(build.advance(Reply::Status(2)));
    assert_eq!(build.phase(), Phase::ShaderLog(ShaderStage::Vertex));
}

fn built_program() -> Program {
    let mut build = build_to_link(None);
    assert!(build.advance(Reply::Status(1)));
    build.finish().expect("finished").expect("built")
}

#[test]
fn bind_uses_the_program_and_unbind_uses_none() {
    let program = built_program();
    assert_eq!(program.bind(), Command::UseProgram { program: 13 });
    assert_eq!(program.unbind(), Command::UseProgram { program: 0 });
}

#[test]
fn uniform_lookup_asks_by_name_and_reads_the_location() {
    let program = built_program();
    assert_eq!(
        program.uniform_query("uProjView"),
        Command::UniformLocation { program: 13, name: String::from("uProjView") }
    );
    assert_eq!(program.get_unifrom(&Reply::Location(4)), Some(4));
    assert_eq!(program.get_unifrom(&Reply::Location(0)), Some(0));
    assert_eq!(program.get_unifrom(&Reply::Location(-1)), None);
    assert_eq!(program.get_unifrom(&Reply::Status(4)), None);
    assert_eq!(program.get_unifrom(&Reply::Nothing), None);
}

#[test]
fn release_deletes_the_program() {
    let program = built_program();
    assert_eq!(program.release(), Command::DeleteProgram { program: 13 });
}

#[test]
fn program_error_messages() {
    assert_eq!(ProgramError::CreationError.message(), "Shader/Program creation failed");
    assert_eq!(
        ProgramError::ShaderCompilationError(String::from("line 3")).message(),
        "Shader compilation: line 3"
    );
    assert_eq!(
        ProgramError::ProgramLinkageError(String::from("no main")).message(),
        "Program linkage: no main"
    );
}

#[test]
fn stage_and_kind_enumerants() {
    assert_eq!(ShaderStage::Vertex.gl_enum(), 0x8B31);
    assert_eq!(ShaderStage::Fragment.gl_enum(), 0x8B30);
    assert_eq!(ObjectKind::Shader.gl_enum(), 0x82E1);
    assert_eq!(ObjectKind::Program.gl_enum(), 0x82E2);
    assert_eq!(ObjectKind::Texture.gl_enum(), 0x1702);
}
