//! Texture resources: an encoded image is decoded to RGBA pixels, and the
//! pixels come with everything that is needed to create the texture, to
//! upload them and to sample them.

use crate::err::Error;
use vstd::prelude::*;

verus! {

/// The encodings that a texture can be decoded from.
#[derive(Copy, Clone, Debug, PartialEq, Eq, Structural)]
pub enum ImageFormat {
    Png,
}

/// The extent of a texture.
#[derive(Copy, Clone, Debug, PartialEq, Eq, Structural)]
pub struct Extent3d {
    pub width: u32,
    pub height: u32,
    pub depth_or_array_layers: u32,
}

/// The number of dimensions of a texture.
#[derive(Copy, Clone, Debug, PartialEq, Eq, Structural)]
pub enum TextureDimension {
    D1,
    D2,
    D3,
}

/// The pixel formats of textures that the engine creates.
#[derive(Copy, Clone, Debug, PartialEq, Eq, Structural)]
pub enum TextureFormat {
    /// Four channels of eight bits, linear.
    Rgba8Unorm,
    /// Four channels of eight bits, colour in sRGB.
    Rgba8UnormSrgb,
}

/// What a texture may be used for.
#[derive(Copy, Clone, Debug, PartialEq, Eq, Structural)]
pub struct TextureUsages {
    pub copy_src: bool,
    pub copy_dst: bool,
    pub texture_binding: bool,
    pub storage_binding: bool,
    pub render_attachment: bool,
}

/// What a sampler does with coordinates outside the texture.
#[derive(Copy, Clone, Debug, PartialEq, Eq, Structural)]
pub enum AddressMode {
    ClampToEdge,
    Repeat,
    MirrorRepeat,
    ClampToBorder,
}

/// How a sampler combines neighbouring texels.
#[derive(Copy, Clone, Debug, PartialEq, Eq, Structural)]
pub enum FilterMode {
    Nearest,
    Linear,
}

/// How the pixels of an upload lie in its data.
#[derive(Copy, Clone, Debug, PartialEq, Eq, Structural)]
pub struct ImageDataLayout {
    /// Where the pixels start.
    pub offset: u64,
    /// Bytes of one row of pixels; absent where a row is empty.
    pub bytes_per_row: Option<u32>,
    /// Rows of the image; absent where there is none.
    pub rows_per_image: Option<u32>,
}

/// The address and filter modes of a sampler.
#[derive(Copy, Clone, Debug, PartialEq, Eq, Structural)]
pub struct SamplerDescriptor {
    pub address_mode_u: AddressMode,
    pub address_mode_v: AddressMode,
    pub address_mode_w: AddressMode,
    pub mag_filter: FilterMode,
    pub min_filter: FilterMode,
    pub mipmap_filter: FilterMode,
}

/// Everything that a texture is created from.
#[derive(Clone, Debug)]
pub struct TextureDescriptor {
    pub label: Option<String>,
    pub size: Extent3d,
    pub mip_level_count: u32,
    pub sample_count: u32,
    pub dimension: TextureDimension,
    pub format: TextureFormat,
    pub usage: TextureUsages,
}

/// A decoded image: rows of pixels from top to bottom, each pixel as four
/// bytes in the order red, green, blue, alpha.
#[derive(Debug)]
pub struct RgbaImage {
    width: u32,
    height: u32,
    pixels: Vec<u8>,
}

/// A texture resource: the texture to create, the pixels to write into it,
/// and the sampler to read it with.
#[derive(Clone, Debug)]
pub struct TextureState {
    pub texture: TextureDescriptor,
    /// The pixels to write into the texture.
    pub data: Vec<u8>,
    /// How the pixels lie in `data`.
    pub layout: ImageDataLayout,
    pub sampler: SamplerDescriptor,
}

/// A decoded image as a value.
pub struct RgbaImageView {
    pub width: u32,
    pub height: u32,
    pub pixels: Seq<u8>,
}

/// A texture descriptor as a value.
pub struct TextureDescriptorView {
    pub label: Option<Seq<char>>,
    pub size: Extent3d,
    pub mip_level_count: u32,
    pub sample_count: u32,
    pub dimension: TextureDimension,
    pub format: TextureFormat,
    pub usage: TextureUsages,
}

/// A texture resource as a value.
pub struct TextureStateView {
    pub texture: TextureDescriptorView,
    pub data: Seq<u8>,
    pub layout: ImageDataLayout,
    pub sampler: SamplerDescriptor,
}

impl View for TextureDescriptor {
    type V = TextureDescriptorView;

    open spec fn view(&self) -> TextureDescriptorView {
        TextureDescriptorView {
            label: match self.label {
                Some(label) => Some(label@),
                None => None,
            },
            size: self.size,
            mip_level_count: self.mip_level_count,
            sample_count: self.sample_count,
            dimension: self.dimension,
            format: self.format,
            usage: self.usage,
        }
    }
}

impl View for TextureState {
    type V = TextureStateView;

    open spec fn view(&self) -> TextureStateView {
        TextureStateView {
            texture: self.texture@,
            data: self.data@,
            layout: self.layout,
            sampler: self.sampler,
        }
    }
}

impl View for RgbaImage {
    type V = RgbaImageView;

    closed spec fn view(&self) -> RgbaImageView {
        RgbaImageView { width: self.width, height: self.height, pixels: self.pixels@ }
    }
}

impl RgbaImageView {
    /// A decoded image holds four bytes for each of its pixels, and nothing
    /// else.
    pub open spec fn is_complete(self) -> bool {
        self.pixels.len() == 4 * self.width * self.height
    }
}

/// What decoding gives for the bytes of an encoded image: the width, the
/// height and the RGBA pixels, or nothing where the bytes do not decode.
pub uninterp spec fn decoded_rgba8(bytes: Seq<u8>, format: ImageFormat) -> Option<(u32, u32, Seq<u8>)>;

/// The sampler of every texture: coordinates are clamped to the edge,
/// magnified texels are interpolated, minified ones are not.
pub open spec fn texture_sampler() -> SamplerDescriptor {
    SamplerDescriptor {
        address_mode_u: AddressMode::ClampToEdge,
        address_mode_v: AddressMode::ClampToEdge,
        address_mode_w: AddressMode::ClampToEdge,
        mag_filter: FilterMode::Linear,
        min_filter: FilterMode::Nearest,
        mipmap_filter: FilterMode::Nearest,
    }
}

/// The texture resource of an image: a two-dimensional sRGB texture of the
/// size of the image, with one layer, one mip level and one sample, that
/// can be bound and copied into; the pixels of the image as the data of the
/// upload, row after row from the start; and the sampler.
pub open spec fn texture_of(image: RgbaImageView, label: Option<Seq<char>>) -> TextureStateView {
    TextureStateView {
        texture: TextureDescriptorView {
            label,
            size: Extent3d { width: image.width, height: image.height, depth_or_array_layers: 1 },
            mip_level_count: 1,
            sample_count: 1,
            dimension: TextureDimension::D2,
            format: TextureFormat::Rgba8UnormSrgb,
            usage: TextureUsages {
                copy_src: false,
                copy_dst: true,
                texture_binding: true,
                storage_binding: false,
                render_attachment: false,
            },
        },
        data: image.pixels,
        layout: ImageDataLayout {
            offset: 0,
            bytes_per_row: if image.width == 0 {
                None
            } else {
                Some((4 * image.width) as u32)
            },
            rows_per_image: if image.height == 0 {
                None
            } else {
                Some(image.height)
            },
        },
        sampler: texture_sampler(),
    }
}

/// Whether a row of pixels of this width can be uploaded: its bytes have to
/// be counted in 32 bits.
pub open spec fn row_fits(width: u32) -> bool {
    4 * width <= u32::MAX
}

/// Decodes with `image::load_from_memory_with_format`, converts the result
/// with `DynamicImage::to_rgba8` and takes its dimensions and its buffer.
/// The three depend on the bytes and the format alone, so what they give has
/// a name. The conversion allocates four bytes for each pixel of the decoded
/// image and fills them, so the buffer has exactly that length.
#[verifier::external_body]
fn decode_rgba8(bytes: &[u8], format: ImageFormat) -> (decoded: Result<
    (u32, u32, Vec<u8>),
    image::ImageError,
>)
    ensures
        match decoded {
            Ok((width, height, pixels)) => decoded_rgba8(bytes@, format) == Some(
                (width, height, pixels@),
            ) && pixels@.len() == 4 * width * height,
            Err(_) => decoded_rgba8(bytes@, format) is None,
        },
{
    let format = match format {
        ImageFormat::Png => image::ImageFormat::Png,
    };
    let img = image::load_from_memory_with_format(bytes, format)?;
    let (width, height) = image::GenericImageView::dimensions(&img);
    Ok((width, height, img.to_rgba8().into_raw()))
}

/// Makes the error that `image` has for an image beyond the limits on its
/// dimensions, with `LimitError::from_kind`.
#[verifier::external_body]
fn dimension_error() -> image::ImageError {
    image::ImageError::Limits(
        image::error::LimitError::from_kind(image::error::LimitErrorKind::DimensionError),
    )
}

impl RgbaImage {
    /// Every image is complete: it holds four bytes for each pixel and no
    /// others.
    #[verifier::type_invariant]
    spec fn complete(self) -> bool {
        self.pixels@.len() == 4 * self.width * self.height
    }

    /// An image from its pixels, if there are four bytes for each pixel and
    /// no others.
    pub fn from_raw(width: u32, height: u32, pixels: Vec<u8>) -> (image: Option<Self>)
        ensures
            match image {
                Some(img) => pixels@.len() == 4 * width * height && img@ == (RgbaImageView {
                    width,
                    height,
                    pixels: pixels@,
                }),
                None => pixels@.len() != 4 * width * height,
            },
    {
        assert(4 * width * height <= 4 * 0xFFFF_FFFF * 0xFFFF_FFFF) by (nonlinear_arith)
            requires
                width <= 0xFFFF_FFFF,
                height <= 0xFFFF_FFFF,
        ;
        let expected: u128 = 4 * (width as u128) * (height as u128);
        if pixels.len() as u128 == expected {
            Some(RgbaImage { width, height, pixels })
        } else {
            None
        }
    }

    /// The width in pixels.
    pub fn width(&self) -> (width: u32)
        ensures
            width == self@.width,
            self@.is_complete(),
    {
        proof {
            use_type_invariant(self);
        }
        self.width
    }

    /// The height in pixels.
    pub fn height(&self) -> (height: u32)
        ensures
            height == self@.height,
    {
        self.height
    }

    /// The pixels, four bytes for each.
    pub fn as_raw(&self) -> (pixels: &Vec<u8>)
        ensures
            pixels@ == self@.pixels,
    {
        &self.pixels
    }

    /// Gives the pixels up.
    pub fn into_raw(self) -> (pixels: Vec<u8>)
        ensures
            pixels@ == self@.pixels,
    {
        self.pixels
    }
}

impl TextureState {
    /// The texture resource of an encoded image. The bytes are decoded; where
    /// they do not decode, or where a row of the image is too long for an
    /// upload, the result is an image error, and otherwise the texture
    /// resource of the decoded image under the given label.
    pub fn from_bytes(bytes: &[u8], format: ImageFormat, label: &str) -> (texture: Result<
        Self,
        Error,
    >)
        ensures
            match decoded_rgba8(bytes@, format) {
                Some((width, height, pixels)) => if row_fits(width) {
                    texture matches Ok(t) && t@ == texture_of(
                        RgbaImageView { width, height, pixels },
                        Some(label@),
                    ) && pixels.len() == 4 * width * height
                } else {
                    texture matches Err(Error::ImageImageError(_))
                },
                None => texture matches Err(Error::ImageImageError(_)),
            },
    {
        match decode_rgba8(bytes, format) {
            Ok((width, height, pixels)) => {
                if width > u32::MAX / 4 {
                    return Err(Error::from(dimension_error()));
                }
                let img = RgbaImage { width, height, pixels };
                Self::from_image(&img, Some(label))
            },
            Err(err) => Err(Error::from(err)),
        }
    }

    /// The texture resource of a decoded image: see [`texture_of`].
    pub fn from_image(img: &RgbaImage, label: Option<&str>) -> (texture: Result<Self, Error>)
        requires
            row_fits(img@.width),
        ensures
            texture matches Ok(t) && t@ == texture_of(
                img@,
                match label {
                    Some(label) => Some(label@),
                    None => None,
                },
            ),
            img@.is_complete(),
    {
        proof {
            use_type_invariant(img);
        }
        let rgba = img.pixels.clone();
        let (dimension_x, dimension_y) = (img.width, img.height);

        let size = Extent3d { width: dimension_x, height: dimension_y, depth_or_array_layers: 1 };
        let texture = TextureDescriptor {
            label: match label {
                Some(label) => Some(label.to_owned()),
                None => None,
            },
            size,
            mip_level_count: 1,
            sample_count: 1,
            dimension: TextureDimension::D2,
            format: TextureFormat::Rgba8UnormSrgb,
            usage: TextureUsages {
                copy_src: false,
                copy_dst: true,
                texture_binding: true,
                storage_binding: false,
                render_attachment: false,
            },
        };

        let layout = ImageDataLayout {
            offset: 0,
            bytes_per_row: non_zero(4 * dimension_x),
            rows_per_image: non_zero(dimension_y),
        };

        let sampler = SamplerDescriptor {
            address_mode_u: AddressMode::ClampToEdge,
            address_mode_v: AddressMode::ClampToEdge,
            address_mode_w: AddressMode::ClampToEdge,
            mag_filter: FilterMode::Linear,
            min_filter: FilterMode::Nearest,
            mipmap_filter: FilterMode::Nearest,
        };

        Ok(Self { texture, data: rgba, layout, sampler })
    }
}

/// The number itself, unless it is zero.
pub fn non_zero(n: u32) -> (out: Option<u32>)
    ensures
        out == if n == 0 {
            None
        } else {
            Some(n)
        },
{
    if n == 0 {
        None
    } else {
        Some(n)
    }
}

/// The upload of a complete image covers the texture exactly: the data
/// holds as many bytes as the rows of the layout take together.
pub proof fn lemma_upload_covers_texture(image: RgbaImageView, label: Option<Seq<char>>)
    requires
        image.is_complete(),
        row_fits(image.width),
    ensures
        ({
            let t = texture_of(image, label);
            let row: int = match t.layout.bytes_per_row {
                Some(n) => n as int,
                None => 0,
            };
            let rows: int = match t.layout.rows_per_image {
                Some(n) => n as int,
                None => 0,
            };
            t.data.len() == row * rows && t.texture.size.width * 4 == row
                && t.texture.size.height == rows
        }),
{
    let w = image.width as int;
    let h = image.height as int;
    assert(4 * w * h == (4 * w) * h) by (nonlinear_arith);
    if w == 0 {
        assert(4 * w * h == 0) by (nonlinear_arith)
            requires
                w == 0,
        ;
    }
    if h == 0 {
        assert(4 * w * h == 0) by (nonlinear_arith)
            requires
                h == 0,
        ;
    }
}

} // verus!
