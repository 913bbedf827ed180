//! Textures: checking raw or decoded pixels, uploading them through a driver,
//! and the commands that use the texture afterwards.

use crate::command::{views, Command, CommandView, ObjectKind, Reply, ReplyView, NO_OBJECT};
use crate::program::{label_text, str_label_text};
use vstd::prelude::*;
use vstd::string::StringExecFns;

verus! {

/// `GL_TEXTURE_WRAP_S`: how the texture repeats along its width.
pub const TEXTURE_WRAP_S: u32 = 0x2802;

/// `GL_TEXTURE_WRAP_T`: how the texture repeats along its height.
pub const TEXTURE_WRAP_T: u32 = 0x2803;

/// `GL_TEXTURE_MIN_FILTER`: how the texture is sampled when it is shrunk.
pub const TEXTURE_MIN_FILTER: u32 = 0x2801;

/// `GL_TEXTURE_MAG_FILTER`: how the texture is sampled when it is enlarged.
pub const TEXTURE_MAG_FILTER: u32 = 0x2800;

/// `GL_REPEAT`.
pub const REPEAT: u32 = 0x2901;

/// `GL_LINEAR`.
pub const LINEAR: u32 = 0x2601;

/// `GL_RGB8`: storage of three bytes a pixel.
pub const RGB8: u32 = 0x8051;

/// `GL_RGBA8`: storage of four bytes a pixel.
pub const RGBA8: u32 = 0x8058;

/// `GL_RGB`: pixels given as red, green, blue.
pub const RGB: u32 = 0x1907;

/// `GL_RGBA`: pixels given as red, green, blue, alpha.
pub const RGBA: u32 = 0x1908;

/// `GL_UNSIGNED_BYTE`: one byte a channel.
pub const UNSIGNED_BYTE: u32 = 0x1401;

/// An error of the image decoder. The library carries it and never looks
/// inside.
#[verifier::external_type_specification]
#[verifier::external_body]
pub struct ExImageError(image::ImageError);

/// Why a texture could not be made.
#[derive(Debug)]
pub enum TextureError {
    /// The image has neither three nor four channels of one byte.
    UnsupportedFormat,
    /// The pixels are not as many bytes as width, height and channels ask for.
    WrongSizedData,
    /// The image could not be decoded.
    ImageError(image::ImageError),
}

/// Calls the decoder's `Display` for its error, which writes what went wrong
/// in words. Nothing is claimed of the text.
#[verifier::external_body]
fn describe(error: &image::ImageError) -> (text: String) {
    format!("{}", error)
}

impl TextureError {
    /// What the error says of itself, but for the decoder's own words.
    pub open spec fn prefix(self) -> Seq<char> {
        match self {
            TextureError::UnsupportedFormat => "Image format not supported"@,
            TextureError::WrongSizedData => "The size of the data doesn't match"@,
            TextureError::ImageError(_) => "Image error: "@,
        }
    }

    /// What the error says of itself: a line for the user. A decoder's error
    /// is introduced, then put in the decoder's own words; the other two have
    /// a fixed line.
    pub fn message(&self) -> (message: String)
        ensures
            self.prefix().is_prefix_of(message@),
            !(self is ImageError) ==> message@ == self.prefix(),
    {
        match self {
            TextureError::UnsupportedFormat => String::from_str("Image format not supported"),
            TextureError::WrongSizedData => String::from_str("The size of the data doesn't match"),
            TextureError::ImageError(error) => {
                let words = describe(error);
                let message = String::from_str("Image error: ").concat(words.as_str());
                assert(self.prefix().is_prefix_of(message@));
                message
            },
        }
    }
}

/// A decoded image, as far as a texture can use it.
#[derive(Debug, PartialEq, Eq)]
pub enum Decoded {
    /// Three bytes a pixel: red, green, blue.
    Rgb8 { width: u32, height: u32, pixels: Vec<u8> },
    /// Four bytes a pixel: red, green, blue, alpha.
    Rgba8 { width: u32, height: u32, pixels: Vec<u8> },
    /// An image in any other layout.
    Other,
}

/// The mathematical value of a [`Decoded`] image.
pub enum DecodedView {
    Rgb8 { width: u32, height: u32, pixels: Seq<u8> },
    Rgba8 { width: u32, height: u32, pixels: Seq<u8> },
    Other,
}

impl View for Decoded {
    type V = DecodedView;

    open spec fn view(&self) -> DecodedView {
        match *self {
            Decoded::Rgb8 { width, height, pixels } => DecodedView::Rgb8 {
                width,
                height,
                pixels: pixels@,
            },
            Decoded::Rgba8 { width, height, pixels } => DecodedView::Rgba8 {
                width,
                height,
                pixels: pixels@,
            },
            Decoded::Other => DecodedView::Other,
        }
    }
}

/// A texture that lives in the driver.
#[derive(Debug, PartialEq, Eq)]
pub struct Texture {
    id: u32,
    image_size: (u32, u32),
    color_channels: u8,
    label: Option<String>,
}

/// The mathematical value of a [`Texture`].
pub struct TextureView {
    pub id: u32,
    pub image_size: (u32, u32),
    pub color_channels: u8,
    pub label: Option<Seq<char>>,
}

impl View for Texture {
    type V = TextureView;

    closed spec fn view(&self) -> TextureView {
        TextureView {
            id: self.id,
            image_size: self.image_size,
            color_channels: self.color_channels,
            label: label_text(self.label),
        }
    }
}

/// Where an upload stands.
#[derive(Clone, Copy, Debug, PartialEq, Eq, Structural)]
pub enum Stage {
    /// The texture object is being created.
    Create,
    /// The texture is being set up and filled.
    Upload,
    /// The texture is in the driver.
    Ready,
}

/// The number of bytes that an image of this size and channel count takes.
pub open spec fn byte_count(image_size: (u32, u32), channels: u8) -> int {
    channels as int * image_size.0 as int * image_size.1 as int
}

/// The storage format for a channel count.
pub open spec fn storage_format(channels: u8) -> u32 {
    if channels == 3 {
        RGB8
    } else {
        RGBA8
    }
}

/// The pixel format for a channel count.
pub open spec fn pixel_format(channels: u8) -> u32 {
    if channels == 3 {
        RGB
    } else {
        RGBA
    }
}

/// The mathematical value of a [`TextureBuild`].
pub struct TextureBuildView {
    pub stage: Stage,
    pub id: u32,
    pub image_size: (u32, u32),
    pub channels: u8,
    pub pixels: Seq<u8>,
    pub label: Option<Seq<char>>,
}

impl TextureBuildView {
    /// The upload of checked pixels, before the driver has done anything for it.
    pub open spec fn start(
        image_size: (u32, u32),
        channels: u8,
        pixels: Seq<u8>,
        label: Option<Seq<char>>,
    ) -> TextureBuildView {
        TextureBuildView { stage: Stage::Create, id: NO_OBJECT, image_size, channels, pixels, label }
    }

    /// The pixels fill the image exactly, three or four bytes each.
    pub open spec fn well_formed(self) -> bool {
        &&& self.channels == 3 || self.channels == 4
        &&& self.pixels.len() == byte_count(self.image_size, self.channels)
    }

    /// The command that labels the texture, where it has a label.
    pub open spec fn label_command(self) -> Seq<CommandView> {
        match self.label {
            Some(text) => seq![
                CommandView::ObjectLabel { kind: ObjectKind::Texture, object: self.id, label: text },
            ],
            None => Seq::empty(),
        }
    }

    /// What the driver has to execute at this stage, in order.
    pub open spec fn commands(self) -> Seq<CommandView> {
        match self.stage {
            Stage::Create => seq![CommandView::CreateTexture],
            Stage::Upload => self.label_command() + seq![
                CommandView::TextureParameter {
                    texture: self.id,
                    parameter: TEXTURE_WRAP_S,
                    value: REPEAT,
                },
                CommandView::TextureParameter {
                    texture: self.id,
                    parameter: TEXTURE_WRAP_T,
                    value: REPEAT,
                },
                CommandView::TextureParameter {
                    texture: self.id,
                    parameter: TEXTURE_MIN_FILTER,
                    value: LINEAR,
                },
                CommandView::TextureParameter {
                    texture: self.id,
                    parameter: TEXTURE_MAG_FILTER,
                    value: LINEAR,
                },
                CommandView::TextureStorage {
                    texture: self.id,
                    levels: 1,
                    format: storage_format(self.channels),
                    width: self.image_size.0,
                    height: self.image_size.1,
                },
                CommandView::TextureImage {
                    texture: self.id,
                    level: 0,
                    width: self.image_size.0,
                    height: self.image_size.1,
                    format: pixel_format(self.channels),
                    data_type: UNSIGNED_BYTE,
                    pixels: self.pixels,
                },
            ],
            Stage::Ready => Seq::empty(),
        }
    }

    /// Whether the reply is of the kind that the stage waits for.
    pub open spec fn accepts(self, reply: ReplyView) -> bool {
        match self.stage {
            Stage::Create => reply is Object,
            Stage::Upload => reply is Nothing,
            Stage::Ready => false,
        }
    }

    /// The upload after a reply that it accepts.
    pub open spec fn next(self, reply: ReplyView) -> TextureBuildView {
        match (self.stage, reply) {
            (Stage::Create, ReplyView::Object(name)) => TextureBuildView {
                stage: Stage::Upload,
                id: name,
                ..self
            },
            (Stage::Upload, ReplyView::Nothing) => TextureBuildView { stage: Stage::Ready, ..self },
            _ => self,
        }
    }

    /// The texture, once it is in the driver.
    pub open spec fn outcome(self) -> Option<TextureView> {
        match self.stage {
            Stage::Ready => Some(
                TextureView {
                    id: self.id,
                    image_size: self.image_size,
                    color_channels: self.channels,
                    label: self.label,
                },
            ),
            _ => None,
        }
    }

    /// Whether the upload takes each of the replies in turn.
    pub open spec fn accepts_all(self, replies: Seq<ReplyView>) -> bool
        decreases replies.len(),
    {
        replies.len() > 0 ==> self.accepts(replies.first()) && self.next(
            replies.first(),
        ).accepts_all(replies.drop_first())
    }

    /// The upload after replies that it takes in turn.
    pub open spec fn after_all(self, replies: Seq<ReplyView>) -> TextureBuildView
        decreases replies.len(),
    {
        if replies.len() == 0 {
            self
        } else {
            self.next(replies.first()).after_all(replies.drop_first())
        }
    }

    /// The number of replies that the upload still takes.
    pub open spec fn replies_left(self) -> nat {
        match self.stage {
            Stage::Create => 2,
            Stage::Upload => 1,
            Stage::Ready => 0,
        }
    }
}

/// What raw pixels come to: an upload that is about to start, or the reason
/// why there is none. A wrong size is found before a wrong channel count.
pub open spec fn raw_texture(
    image_size: (u32, u32),
    channels: u8,
    pixels: Seq<u8>,
    label: Option<Seq<char>>,
) -> Result<TextureBuildView, TextureError> {
    if pixels.len() != byte_count(image_size, channels) {
        Err(TextureError::WrongSizedData)
    } else if channels != 3 && channels != 4 {
        Err(TextureError::UnsupportedFormat)
    } else {
        Ok(TextureBuildView::start(image_size, channels, pixels, label))
    }
}

/// What the outcome of a decode comes to: the decoder's error, an unsupported
/// layout, or what the raw pixels come to with three or four channels.
pub open spec fn decoded_texture(
    image: Result<DecodedView, image::ImageError>,
    label: Option<Seq<char>>,
) -> Result<TextureBuildView, TextureError> {
    match image {
        Err(error) => Err(TextureError::ImageError(error)),
        Ok(DecodedView::Other) => Err(TextureError::UnsupportedFormat),
        Ok(DecodedView::Rgb8 { width, height, pixels }) => raw_texture(
            (width, height),
            3,
            pixels,
            label,
        ),
        Ok(DecodedView::Rgba8 { width, height, pixels }) => raw_texture(
            (width, height),
            4,
            pixels,
            label,
        ),
    }
}

/// A texture in the making: an upload that a driver carries out.
///
/// The driver executes [`commands`](TextureBuild::commands), hands the reply
/// to the last of them to [`advance`](TextureBuild::advance), and goes on
/// until the upload [`is_finished`](TextureBuild::is_finished); then
/// [`finish`](TextureBuild::finish) gives the texture.
#[derive(Debug)]
pub struct TextureBuild {
    stage: Stage,
    id: u32,
    image_size: (u32, u32),
    channels: u8,
    pixels: Vec<u8>,
    label: Option<String>,
}

impl View for TextureBuild {
    type V = TextureBuildView;

    closed spec fn view(&self) -> TextureBuildView {
        TextureBuildView {
            stage: self.stage,
            id: self.id,
            image_size: self.image_size,
            channels: self.channels,
            pixels: self.pixels@,
            label: label_text(self.label),
        }
    }
}

/// The result of starting an upload, as mathematical values.
pub open spec fn build_view(result: Result<TextureBuild, TextureError>) -> Result<
    TextureBuildView,
    TextureError,
> {
    match result {
        Ok(build) => Ok(build@),
        Err(error) => Err(error),
    }
}

/// A decode's outcome, as mathematical values.
pub open spec fn decode_view(image: Result<Decoded, image::ImageError>) -> Result<
    DecodedView,
    image::ImageError,
> {
    match image {
        Ok(decoded) => Ok(decoded@),
        Err(error) => Err(error),
    }
}

impl TextureBuild {
    /// The stage that the upload is at.
    pub fn stage(&self) -> (stage: Stage)
        ensures
            stage == self@.stage,
    {
        self.stage
    }

    /// Width and height of the image that is uploaded, in pixels.
    pub fn image_size(&self) -> (size: (u32, u32))
        ensures
            size == self@.image_size,
    {
        self.image_size
    }

    /// The number of bytes a pixel of the image that is uploaded.
    pub fn color_channels(&self) -> (channels: u8)
        ensures
            channels == self@.channels,
    {
        self.channels
    }

    /// Whether the upload is over: no command is left, and no reply is taken.
    pub fn is_finished(&self) -> (finished: bool)
        ensures
            finished == (self@.stage is Ready),
            finished == (self@.outcome() is Some),
            finished == (self@.replies_left() == 0),
    {
        match self.stage {
            Stage::Ready => true,
            _ => false,
        }
    }

    /// What the driver has to execute now, in order. The reply to the last
    /// command goes to [`advance`](TextureBuild::advance). A finished upload
    /// asks for nothing.
    pub fn commands(&self) -> (commands: Vec<Command>)
        ensures
            views(commands@) == self@.commands(),
    {
        let texture = self.id;
        let (width, height) = self.image_size;
        let mut commands: Vec<Command> = Vec::new();
        match self.stage {
            Stage::Create => {
                commands.push(Command::CreateTexture);
            },
            Stage::Upload => {
                match &self.label {
                    Some(text) => {
                        commands.push(
                            Command::ObjectLabel {
                                kind: ObjectKind::Texture,
                                object: texture,
                                label: text.clone(),
                            },
                        );
                    },
                    None => {},
                }
                let storage = if self.channels == 3 {
                    RGB8
                } else {
                    RGBA8
                };
                let format = if self.channels == 3 {
                    RGB
                } else {
                    RGBA
                };
                let pixels = self.pixels.clone();
                assert(pixels@ =~= self.pixels@);
                commands.push(
                    Command::TextureParameter { texture, parameter: TEXTURE_WRAP_S, value: REPEAT },
                );
                commands.push(
                    Command::TextureParameter { texture, parameter: TEXTURE_WRAP_T, value: REPEAT },
                );
                commands.push(
                    Command::TextureParameter {
                        texture,
                        parameter: TEXTURE_MIN_FILTER,
                        value: LINEAR,
                    },
                );
                commands.push(
                    Command::TextureParameter {
                        texture,
                        parameter: TEXTURE_MAG_FILTER,
                        value: LINEAR,
                    },
                );
                commands.push(
                    Command::TextureStorage { texture, levels: 1, format: storage, width, height },
                );
                commands.push(
                    Command::TextureImage {
                        texture,
                        level: 0,
                        width,
                        height,
                        format,
                        data_type: UNSIGNED_BYTE,
                        pixels,
                    },
                );
            },
            Stage::Ready => {},
        }
        assert(views(commands@) =~= self@.commands());
        commands
    }

    /// Takes the driver's reply to the last of the commands.
    ///
    /// A reply of the kind that the stage waits for moves the upload on, and
    /// brings it nearer to its end; the pixels stay as they were checked. Any
    /// other reply is refused: the upload stays as it was.
    pub fn advance(&mut self, reply: Reply) -> (accepted: bool)
        ensures
            accepted == old(self)@.accepts(reply@),
            accepted ==> final(self)@ == old(self)@.next(reply@),
            accepted ==> final(self)@.replies_left() < old(self)@.replies_left(),
            !accepted ==> final(self)@ == old(self)@,
    {
        match (self.stage, reply) {
            (Stage::Create, Reply::Object(name)) => {
                self.id = name;
                self.stage = Stage::Upload;
                true
            },
            (Stage::Upload, Reply::Nothing) => {
                self.stage = Stage::Ready;
                true
            },
            _ => false,
        }
    }

    /// Ends the upload: the texture, or nothing while the driver still has
    /// work to do for it.
    pub fn finish(self) -> (texture: Option<Texture>)
        ensures
            match texture {
                Some(made) => self@.outcome() == Some(made@),
                None => self@.outcome() is None,
            },
    {
        match self.stage {
            Stage::Ready => Some(
                Texture {
                    id: self.id,
                    image_size: self.image_size,
                    color_channels: self.channels,
                    label: self.label,
                },
            ),
            _ => None,
        }
    }
}

impl Texture {
    /// Starts the upload of raw pixels: `channels` bytes a pixel, row by row.
    ///
    /// The pixels must be exactly as many bytes as width, height and channel
    /// count ask for, and there must be three or four channels.
    pub fn from_raw(
        image_size: (u32, u32),
        channels: u8,
        data: Vec<u8>,
        label: Option<&str>,
    ) -> (result: Result<TextureBuild, TextureError>)
        ensures
            build_view(result) == raw_texture(image_size, channels, data@, str_label_text(label)),
    {
        let (width, height) = image_size;
        assert(width as int * height as int <= 0xFFFF_FFFF * 0xFFFF_FFFF) by (nonlinear_arith)
            requires
                0 <= width <= 0xFFFF_FFFF,
                0 <= height <= 0xFFFF_FFFF,
        ;
        let texels: u128 = width as u128 * height as u128;
        assert(channels as int * texels as int <= 255 * (0xFFFF_FFFF * 0xFFFF_FFFF))
            by (nonlinear_arith)
            requires
                0 <= channels <= 255,
                0 <= texels <= 0xFFFF_FFFF * 0xFFFF_FFFF,
        ;
        let bytes: u128 = channels as u128 * texels;
        assert(bytes == byte_count(image_size, channels)) by (nonlinear_arith)
            requires
                bytes == channels as int * texels as int,
                texels == width as int * height as int,
                image_size.0 == width,
                image_size.1 == height,
        ;
        if bytes != data.len() as u128 {
            return Err(TextureError::WrongSizedData);
        }
        if channels != 3 && channels != 4 {
            return Err(TextureError::UnsupportedFormat);
        }
        let label = match label {
            Some(text) => Some(String::from_str(text)),
            None => None,
        };
        Ok(TextureBuild { stage: Stage::Create, id: NO_OBJECT, image_size, channels, pixels: data, label })
    }

    /// Starts the upload of an image that a decoder has made of a file or of
    /// bytes in memory. The decoder runs outside the library, which takes its
    /// outcome.
    ///
    /// A decoder's error is passed on; an image that is not in three or four
    /// channels of one byte is refused; any other goes the way of
    /// [`from_raw`](Texture::from_raw).
    pub fn from_file(opened: Result<Decoded, image::ImageError>, label: Option<&str>) -> (result:
        Result<TextureBuild, TextureError>)
        ensures
            build_view(result) == decoded_texture(decode_view(opened), str_label_text(label)),
    {
        match opened {
            Err(error) => Err(TextureError::ImageError(error)),
            Ok(Decoded::Other) => Err(TextureError::UnsupportedFormat),
            Ok(Decoded::Rgb8 { width, height, pixels }) => Texture::from_raw(
                (width, height),
                3,
                pixels,
                label,
            ),
            Ok(Decoded::Rgba8 { width, height, pixels }) => Texture::from_raw(
                (width, height),
                4,
                pixels,
                label,
            ),
        }
    }

    /// The command that binds this texture to a texture unit.
    pub fn bind(&self, slot: u32) -> (command: Command)
        ensures
            command@ == (CommandView::BindTextureUnit { unit: slot, texture: self@.id }),
    {
        Command::BindTextureUnit { unit: slot, texture: self.id }
    }

    /// The command that leaves a texture unit without a texture.
    pub fn unbind(&self, slot: u32) -> (command: Command)
        ensures
            command@ == (CommandView::BindTextureUnit { unit: slot, texture: NO_OBJECT }),
    {
        Command::BindTextureUnit { unit: slot, texture: NO_OBJECT }
    }

    /// Gives the texture up: the command that deletes it. The texture is
    /// consumed, so it is released once.
    pub fn release(self) -> (command: Command)
        ensures
            command@ == (CommandView::DeleteTexture { texture: self@.id }),
    {
        Command::DeleteTexture { texture: self.id }
    }

    /// The name of the texture object.
    pub fn id(&self) -> (id: u32)
        ensures
            id == self@.id,
    {
        self.id
    }

    /// Width and height of the image, in pixels.
    pub fn image_size(&self) -> (size: (u32, u32))
        ensures
            size == self@.image_size,
    {
        self.image_size
    }

    /// The number of bytes a pixel.
    pub fn color_channels(&self) -> (channels: u8)
        ensures
            channels == self@.color_channels,
    {
        self.color_channels
    }

    /// The label that the texture was made with.
    pub fn label(&self) -> (label: Option<&str>)
        ensures
            str_label_text(label) == self@.label,
    {
        match &self.label {
            Some(text) => Some(text.as_str()),
            None => None,
        }
    }
}

/// Raw pixels whose length is not width times height times channels are
/// refused as wrongly sized, whatever the channel count.
pub proof fn wrong_size_is_refused(
    image_size: (u32, u32),
    channels: u8,
    pixels: Seq<u8>,
    label: Option<Seq<char>>,
)
    requires
        pixels.len() != channels as int * image_size.0 as int * image_size.1 as int,
    ensures
        raw_texture(image_size, channels, pixels, label) == Err::<TextureBuildView, TextureError>(
            TextureError::WrongSizedData,
        ),
{
}

/// Raw pixels are taken exactly when they fill the image with three or four
/// bytes a pixel, and the upload that starts is well formed.
pub proof fn accepted_pixels_fill_the_image(
    image_size: (u32, u32),
    channels: u8,
    pixels: Seq<u8>,
    label: Option<Seq<char>>,
)
    ensures
        raw_texture(image_size, channels, pixels, label) is Ok <==> TextureBuildView::start(
            image_size,
            channels,
            pixels,
            label,
        ).well_formed(),
{
}

/// A decoded image whose buffer holds exactly the bytes of its pixels is never
/// refused as wrongly sized: it starts a well-formed upload, unless it is in a
/// layout that a texture cannot use.
pub proof fn filled_image_is_never_wrongly_sized(image: DecodedView, label: Option<Seq<char>>)
    requires
        match image {
            DecodedView::Rgb8 { width, height, pixels } => pixels.len() == byte_count(
                (width, height),
                3,
            ),
            DecodedView::Rgba8 { width, height, pixels } => pixels.len() == byte_count(
                (width, height),
                4,
            ),
            DecodedView::Other => true,
        },
    ensures
        match decoded_texture(Ok(image), label) {
            Ok(build) => !(image is Other) && build.stage is Create && build.id == NO_OBJECT
                && build.well_formed() && build.label == label,
            Err(error) => image is Other && error is UnsupportedFormat,
        },
{
}

/// An upload stays well formed whatever the driver replies, and never hands
/// the driver an image whose pixels are not as many bytes as its storage
/// takes: the last command of the upload stage is that image.
pub proof fn upload_fills_its_storage(build: TextureBuildView, reply: ReplyView)
    requires
        build.well_formed(),
    ensures
        build.next(reply).well_formed(),
        build.stage is Upload ==> build.commands().last() == (CommandView::TextureImage {
            texture: build.id,
            level: 0,
            width: build.image_size.0,
            height: build.image_size.1,
            format: pixel_format(build.channels),
            data_type: UNSIGNED_BYTE,
            pixels: build.pixels,
        }) && build.pixels.len() == build.channels as int * build.image_size.0 as int
            * build.image_size.1 as int,
{
}

/// An upload takes exactly as many replies as are left of its two: it cannot
/// take more, and once it has taken them it is over, with its pixels, size
/// and channels as they were checked.
pub proof fn upload_ends_within_its_bound(build: TextureBuildView, replies: Seq<ReplyView>)
    requires
        build.accepts_all(replies),
    ensures
        replies.len() + build.after_all(replies).replies_left() == build.replies_left(),
        build.replies_left() <= 2,
        build.after_all(replies).pixels == build.pixels,
        build.after_all(replies).image_size == build.image_size,
        build.after_all(replies).channels == build.channels,
        build.after_all(replies).label == build.label,
    decreases replies.len(),
{
    if replies.len() > 0 {
        upload_ends_within_its_bound(build.next(replies.first()), replies.drop_first());
    }
}

/// With a driver that does as it is asked, the upload gives the texture that
/// the driver created, with the size, channels and label that were asked for.
pub proof fn upload_gives_texture(
    image_size: (u32, u32),
    channels: u8,
    pixels: Seq<u8>,
    label: Option<Seq<char>>,
    id: u32,
)
    ensures
        TextureBuildView::start(image_size, channels, pixels, label).next(
            ReplyView::Object(id),
        ).next(ReplyView::Nothing).outcome() == Some(
            TextureView { id, image_size, color_channels: channels, label },
        ),
{
}

} // verus!
