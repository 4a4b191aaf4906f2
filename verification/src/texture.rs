//! A texture made from a decoded image: what to create on the device, and
//! how the pixels that are written to it lie in memory. Decoding is the
//! host's: the library takes the image as plain values.

use vstd::prelude::*;
use crate::renders::{BufferInitDescriptor, BufferUsage};
use crate::swapchain::{State, TextureUsage};

verus! {

/// A decoded image: its size in pixels, and its pixels where they are four
/// bytes each, red, green, blue and alpha, row after row.
#[derive(Clone, Debug, PartialEq, Eq)]
pub struct DecodedImage {
    pub width: u32,
    pub height: u32,
    /// The pixels, or nothing where the image holds pixels of another kind.
    pub rgba8: Option<Vec<u8>>,
}

/// What a `DecodedImage` holds.
pub struct DecodedImageView {
    pub width: u32,
    pub height: u32,
    pub rgba8: Option<Seq<u8>>,
}

impl View for DecodedImage {
    type V = DecodedImageView;

    open spec fn view(&self) -> DecodedImageView {
        DecodedImageView {
            width: self.width,
            height: self.height,
            rgba8: match self.rgba8 {
                Some(pixels) => Some(pixels@),
                None => None,
            },
        }
    }
}

/// Why an image cannot become a texture.
#[derive(Clone, Copy, Debug, PartialEq, Eq, Structural)]
pub enum TextureError {
    /// A row of the image takes more bytes than 32 bits can count.
    TooWide,
}

/// The size of a texture, or of a part of one.
#[derive(Clone, Copy, Debug, PartialEq, Eq, Structural)]
pub struct Extent3d {
    pub width: u32,
    pub height: u32,
    pub depth: u32,
}

/// The number of dimensions of a texture.
#[derive(Clone, Copy, Debug, PartialEq, Eq, Structural)]
pub enum TextureDimension {
    D1,
    D2,
    D3,
}

/// The format of a texture of four 8-bit channels, red first.
#[derive(Clone, Copy, Debug, PartialEq, Eq, Structural)]
pub enum TexelFormat {
    /// Linear values.
    Rgba8Unorm,
    /// Values on the sRGB curve.
    Rgba8UnormSrgb,
}

/// A texture to create on the device.
#[derive(Clone, Copy, Debug, PartialEq, Eq)]
pub struct TextureDescriptor {
    pub label: &'static str,
    pub size: Extent3d,
    pub mip_level_count: u32,
    pub sample_count: u32,
    pub dimension: TextureDimension,
    pub format: TexelFormat,
    pub usage: TextureUsage,
}

/// How an image lies in the bytes that are written to a texture.
#[derive(Clone, Copy, Debug, PartialEq, Eq)]
pub struct TextureDataLayout {
    /// Where the image starts.
    pub offset: u64,
    /// The bytes from one row to the next; nothing where a row has none.
    pub bytes_per_row: Option<u32>,
    /// The rows of the image; nothing where it has none.
    pub rows_per_image: Option<u32>,
}

/// A texture to create and fill: the texture, the buffer that holds its
/// pixels, and how they lie there. The pixels are written to the texture's
/// only mip level, from its origin on, over its whole size.
#[derive(Clone, Debug, PartialEq, Eq)]
pub struct TextureUpload {
    pub texture: TextureDescriptor,
    pub layout: TextureDataLayout,
    pub buffer: BufferInitDescriptor,
}

/// What a `TextureUpload` holds.
pub struct TextureUploadView {
    pub label: Seq<char>,
    pub size: Extent3d,
    pub mip_level_count: u32,
    pub sample_count: u32,
    pub dimension: TextureDimension,
    pub format: TexelFormat,
    pub usage: TextureUsage,
    pub layout: TextureDataLayout,
    pub buffer_label: Seq<char>,
    pub buffer_usage: BufferUsage,
    pub pixels: Seq<u8>,
}

impl View for TextureUpload {
    type V = TextureUploadView;

    open spec fn view(&self) -> TextureUploadView {
        TextureUploadView {
            label: self.texture.label@,
            size: self.texture.size,
            mip_level_count: self.texture.mip_level_count,
            sample_count: self.texture.sample_count,
            dimension: self.texture.dimension,
            format: self.texture.format,
            usage: self.texture.usage,
            layout: self.layout,
            buffer_label: self.buffer.label@,
            buffer_usage: self.buffer.usage,
            pixels: self.buffer.contents@,
        }
    }
}

/// A count, or nothing where it is zero.
pub open spec fn spec_nonzero(count: u32) -> Option<u32> {
    if count == 0 {
        None
    } else {
        Some(count)
    }
}

/// A count, or nothing where it is zero.
pub fn nonzero(count: u32) -> (counted: Option<u32>)
    ensures
        counted == spec_nonzero(count),
{
    if count == 0 {
        None
    } else {
        Some(count)
    }
}

impl DecodedImageView {
    /// The pixels of an image that holds 8-bit red, green, blue and alpha.
    pub open spec fn pixels(self) -> Seq<u8>
        recommends
            self.rgba8 is Some,
    {
        self.rgba8.unwrap()
    }
}

/// The texture that an image of 8-bit RGBA pixels becomes: a two-dimensional
/// sRGB texture of the image's size, one layer deep, with one mip level and
/// one sample, which shaders sample and copies fill; its rows four bytes per
/// pixel apart. An image whose rows are too long to count is refused.
pub open spec fn texture_upload(image: DecodedImageView) -> Result<TextureUploadView, TextureError>
    recommends
        image.rgba8 is Some,
{
    if 4 * image.width > u32::MAX {
        Err(TextureError::TooWide)
    } else {
        Ok(
            TextureUploadView {
                label: "diffuse_texture"@,
                size: Extent3d { width: image.width, height: image.height, depth: 1 },
                mip_level_count: 1,
                sample_count: 1,
                dimension: TextureDimension::D2,
                format: TexelFormat::Rgba8UnormSrgb,
                usage: TextureUsage {
                    copy_src: false,
                    copy_dst: true,
                    sampled: true,
                    storage: false,
                    render_attachment: false,
                },
                layout: TextureDataLayout {
                    offset: 0,
                    bytes_per_row: spec_nonzero((4 * image.width) as u32),
                    rows_per_image: spec_nonzero(image.height),
                },
                buffer_label: "temp buffer for texture"@,
                buffer_usage: BufferUsage::CopyDst,
                pixels: image.pixels(),
            },
        )
    }
}

/// The view of the outcome of planning a texture.
pub open spec fn upload_view(planned: Result<TextureUpload, TextureError>) -> Result<
    TextureUploadView,
    TextureError,
> {
    match planned {
        Ok(upload) => Ok(upload@),
        Err(error) => Err(error),
    }
}

impl State {
    /// Plans the texture that a decoded image becomes. Only an image that
    /// holds 8-bit red, green, blue and alpha becomes a texture: the caller
    /// has to have its pixels.
    pub fn create_texture(image: DecodedImage) -> (planned: Result<TextureUpload, TextureError>)
        requires
            image.rgba8 is Some,
        ensures
            upload_view(planned) == texture_upload(image@),
    {
        let width = image.width;
        let height = image.height;
        let pixels = image.rgba8.unwrap();
        if width > 0x3FFF_FFFF {
            Err(TextureError::TooWide)
        } else {
            Ok(
                TextureUpload {
                    texture: TextureDescriptor {
                        label: "diffuse_texture",
                        size: Extent3d { width, height, depth: 1 },
                        mip_level_count: 1,
                        sample_count: 1,
                        dimension: TextureDimension::D2,
                        format: TexelFormat::Rgba8UnormSrgb,
                        usage: TextureUsage {
                            copy_src: false,
                            copy_dst: true,
                            sampled: true,
                            storage: false,
                            render_attachment: false,
                        },
                    },
                    layout: TextureDataLayout {
                        offset: 0,
                        bytes_per_row: nonzero(4 * width),
                        rows_per_image: nonzero(height),
                    },
                    buffer: BufferInitDescriptor {
                        label: "temp buffer for texture",
                        contents: pixels,
                        usage: BufferUsage::CopyDst,
                    },
                },
            )
        }
    }
}

} // verus!
