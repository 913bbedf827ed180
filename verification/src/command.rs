//! The vocabulary shared with a graphics driver: the commands that the library
//! asks for, and the replies that a driver hands back.

use vstd::prelude::*;

verus! {

/// Object name that OpenGL reserves for "no object".
pub const NO_OBJECT: u32 = 0;

/// Value of `GL_TRUE`, the status of a compile or link that succeeded.
pub const STATUS_OK: i32 = 1;

/// Value that a uniform lookup gives for a name that the program does not have.
pub const NO_LOCATION: i32 = -1;

/// The two stages of a shader program.
#[derive(Clone, Copy, Debug, PartialEq, Eq, Structural)]
pub enum ShaderStage {
    Vertex,
    Fragment,
}

impl ShaderStage {
    /// The OpenGL enumerant of the stage.
    pub open spec fn code(self) -> u32 {
        match self {
            ShaderStage::Vertex => 0x8B31,
            ShaderStage::Fragment => 0x8B30,
        }
    }

    /// The OpenGL enumerant of the stage: `GL_VERTEX_SHADER` or
    /// `GL_FRAGMENT_SHADER`.
    pub fn gl_enum(self) -> (r: u32)
        ensures
            r == self.code(),
    {
        match self {
            ShaderStage::Vertex => 0x8B31,
            ShaderStage::Fragment => 0x8B30,
        }
    }
}

/// The kinds of object that can carry a debug label.
#[derive(Clone, Copy, Debug, PartialEq, Eq, Structural)]
pub enum ObjectKind {
    Shader,
    Program,
    Texture,
}

impl ObjectKind {
    /// The OpenGL enumerant of the kind.
    pub open spec fn code(self) -> u32 {
        match self {
            ObjectKind::Shader => 0x82E1,
            ObjectKind::Program => 0x82E2,
            ObjectKind::Texture => 0x1702,
        }
    }

    /// The OpenGL enumerant of the kind: `GL_SHADER`, `GL_PROGRAM` or
    /// `GL_TEXTURE`.
    pub fn gl_enum(self) -> (r: u32)
        ensures
            r == self.code(),
    {
        match self {
            ObjectKind::Shader => 0x82E1,
            ObjectKind::Program => 0x82E2,
            ObjectKind::Texture => 0x1702,
        }
    }
}

/// One call that a driver makes on behalf of the library.
///
/// The commands that create an object or ask a question are answered with a
/// [`Reply`] that carries the result; all others are answered with
/// [`Reply::Nothing`].
#[derive(Debug, PartialEq, Eq)]
pub enum Command {
    /// Create a shader object of the stage. Answered with [`Reply::Object`].
    CreateShader { stage: ShaderStage },
    /// Replace the source text of the shader.
    ShaderSource { shader: u32, source: String },
    /// Compile the shader.
    CompileShader { shader: u32 },
    /// Ask for the compile status. Answered with [`Reply::Status`].
    CompileStatus { shader: u32 },
    /// Ask for the compiler's diagnostics. Answered with [`Reply::InfoLog`].
    ShaderInfoLog { shader: u32 },
    /// Create a program object. Answered with [`Reply::Object`].
    CreateProgram,
    /// Attach the shader to the program.
    AttachShader { program: u32, shader: u32 },
    /// Link the program.
    LinkProgram { program: u32 },
    /// Detach the shader from the program.
    DetachShader { program: u32, shader: u32 },
    /// Delete the shader object.
    DeleteShader { shader: u32 },
    /// Ask for the link status. Answered with [`Reply::Status`].
    LinkStatus { program: u32 },
    /// Ask for the linker's diagnostics. Answered with [`Reply::InfoLog`].
    ProgramInfoLog { program: u32 },
    /// Make the program current; program 0 makes none current.
    UseProgram { program: u32 },
    /// Look a uniform up by name. Answered with [`Reply::Location`].
    UniformLocation { program: u32, name: String },
    /// Delete the program object.
    DeleteProgram { program: u32 },
    /// Attach a debug label to an object.
    ObjectLabel { kind: ObjectKind, object: u32, label: String },
    /// Create a two-dimensional texture. Answered with [`Reply::Object`].
    CreateTexture,
    /// Set an integer parameter of the texture.
    TextureParameter { texture: u32, parameter: u32, value: u32 },
    /// Allocate immutable storage for the texture.
    TextureStorage { texture: u32, levels: u32, format: u32, width: u32, height: u32 },
    /// Fill one level of the texture, whole, from tightly packed pixels.
    TextureImage {
        texture: u32,
        level: u32,
        width: u32,
        height: u32,
        format: u32,
        data_type: u32,
        pixels: Vec<u8>,
    },
    /// Bind the texture to a texture unit; texture 0 unbinds.
    BindTextureUnit { unit: u32, texture: u32 },
    /// Delete the texture object.
    DeleteTexture { texture: u32 },
    /// Set the viewport to the rectangle at the origin with this width and
    /// height.
    Viewport { size: (i32, i32) },
}

/// The mathematical value of a [`Command`].
pub enum CommandView {
    CreateShader { stage: ShaderStage },
    ShaderSource { shader: u32, source: Seq<char> },
    CompileShader { shader: u32 },
    CompileStatus { shader: u32 },
    ShaderInfoLog { shader: u32 },
    CreateProgram,
    AttachShader { program: u32, shader: u32 },
    LinkProgram { program: u32 },
    DetachShader { program: u32, shader: u32 },
    DeleteShader { shader: u32 },
    LinkStatus { program: u32 },
    ProgramInfoLog { program: u32 },
    UseProgram { program: u32 },
    UniformLocation { program: u32, name: Seq<char> },
    DeleteProgram { program: u32 },
    ObjectLabel { kind: ObjectKind, object: u32, label: Seq<char> },
    CreateTexture,
    TextureParameter { texture: u32, parameter: u32, value: u32 },
    TextureStorage { texture: u32, levels: u32, format: u32, width: u32, height: u32 },
    TextureImage {
        texture: u32,
        level: u32,
        width: u32,
        height: u32,
        format: u32,
        data_type: u32,
        pixels: Seq<u8>,
    },
    BindTextureUnit { unit: u32, texture: u32 },
    DeleteTexture { texture: u32 },
    Viewport { size: (i32, i32) },
}

impl View for Command {
    type V = CommandView;

    open spec fn view(&self) -> CommandView {
        match *self {
            Command::CreateShader { stage } => CommandView::CreateShader { stage },
            Command::ShaderSource { shader, source } => CommandView::ShaderSource {
                shader,
                source: source@,
            },
            Command::CompileShader { shader } => CommandView::CompileShader { shader },
            Command::CompileStatus { shader } => CommandView::CompileStatus { shader },
            Command::ShaderInfoLog { shader } => CommandView::ShaderInfoLog { shader },
            Command::CreateProgram => CommandView::CreateProgram,
            Command::AttachShader { program, shader } => CommandView::AttachShader {
                program,
                shader,
            },
            Command::LinkProgram { program } => CommandView::LinkProgram { program },
            Command::DetachShader { program, shader } => CommandView::DetachShader {
                program,
                shader,
            },
            Command::DeleteShader { shader } => CommandView::DeleteShader { shader },
            Command::LinkStatus { program } => CommandView::LinkStatus { program },
            Command::ProgramInfoLog { program } => CommandView::ProgramInfoLog { program },
            Command::UseProgram { program } => CommandView::UseProgram { program },
            Command::UniformLocation { program, name } => CommandView::UniformLocation {
                program,
                name: name@,
            },
            Command::DeleteProgram { program } => CommandView::DeleteProgram { program },
            Command::ObjectLabel { kind, object, label } => CommandView::ObjectLabel {
                kind,
                object,
                label: label@,
            },
            Command::CreateTexture => CommandView::CreateTexture,
            Command::TextureParameter { texture, parameter, value } => {
                CommandView::TextureParameter { texture, parameter, value }
            },
            Command::TextureStorage { texture, levels, format, width, height } => {
                CommandView::TextureStorage { texture, levels, format, width, height }
            },
            Command::TextureImage { texture, level, width, height, format, data_type, pixels } => {
                CommandView::TextureImage {
                    texture,
                    level,
                    width,
                    height,
                    format,
                    data_type,
                    pixels: pixels@,
                }
            },
            Command::BindTextureUnit { unit, texture } => CommandView::BindTextureUnit {
                unit,
                texture,
            },
            Command::DeleteTexture { texture } => CommandView::DeleteTexture { texture },
            Command::Viewport { size } => CommandView::Viewport { size },
        }
    }
}

/// What a driver hands back after it has executed a batch of commands: the
/// answer to the last command of the batch.
#[derive(Debug, PartialEq, Eq)]
pub enum Reply {
    /// The last command asked no question.
    Nothing,
    /// The name of the object that was created; 0 where none could be.
    Object(u32),
    /// A compile or link status.
    Status(i32),
    /// The diagnostics of a compile or link.
    InfoLog(String),
    /// The location of a uniform; -1 where the program has none of that name.
    Location(i32),
}

/// The mathematical value of a [`Reply`].
pub enum ReplyView {
    Nothing,
    Object(u32),
    Status(i32),
    InfoLog(Seq<char>),
    Location(i32),
}

impl View for Reply {
    type V = ReplyView;

    open spec fn view(&self) -> ReplyView {
        match *self {
            Reply::Nothing => ReplyView::Nothing,
            Reply::Object(name) => ReplyView::Object(name),
            Reply::Status(status) => ReplyView::Status(status),
            Reply::InfoLog(text) => ReplyView::InfoLog(text@),
            Reply::Location(location) => ReplyView::Location(location),
        }
    }
}

/// The views of a sequence of commands, one for one.
pub open spec fn views(commands: Seq<Command>) -> Seq<CommandView> {
    commands.map_values(|c: Command| c@)
}

} // verus!
