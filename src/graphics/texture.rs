//! Textures loaded from encoded images: decoded to 8-bit RGBA, uploaded to a
//! 2D sRGB texture, with a default view and a clamp-to-edge sampler.
use vstd::prelude::*;
use crate::graphics::gpu::{
    new_rgba_texture, new_sampler, texture_view, write_rgba_texture, AddressMode, FilterMode,
    GpuDevice, RgbaTexture, RgbaTextureView, TexelFormat, TextureSampler,
};

verus! {

#[verifier::external_type_specification]
#[verifier::external_body]
pub struct ExImageError(image::ImageError);

/// What decoding an encoded image to 8-bit RGBA gives: `None` where the bytes
/// are not an image the decoder recognises, else the width, the height and
/// the RGBA bytes, row by row.
pub uninterp spec fn decoded_rgba(bytes: Seq<u8>) -> Option<(u32, u32, Seq<u8>)>;

/// Relies on `image::load_from_memory`, which detects the format from the
/// bytes, and on `DynamicImage::to_rgba8`, which converts the result to 8-bit
/// RGBA; an `ImageBuffer` holds at least four bytes for each pixel.
#[verifier::external_body]
fn decode_rgba(bytes: &[u8]) -> (r: Result<(u32, u32, Vec<u8>), image::ImageError>)
    ensures
        r is Ok <==> decoded_rgba(bytes@) is Some,
        r is Ok ==> decoded_rgba(bytes@) == Some((r->Ok_0.0, r->Ok_0.1, r->Ok_0.2@)),
        r is Ok ==> r->Ok_0.2@.len() >= 4 * r->Ok_0.0 * r->Ok_0.1,
{
    image::load_from_memory(bytes).map(
        |img| {
            let rgba = img.to_rgba8();
            (rgba.width(), rgba.height(), rgba.into_raw())
        },
    )
}

/// Failures of the texture loader.
pub enum TextureError {
    /// The bytes are not an image the decoder recognises.
    Decode(image::ImageError),
    /// The image is empty or larger than the device's texture limit.
    InvalidSize,
}

/// A decoded image: its size and its 8-bit RGBA bytes, row by row.
pub struct DecodedImage {
    pub width: u32,
    pub height: u32,
    pub rgba: Vec<u8>,
}

impl DecodedImage {
    /// The bytes cover every pixel.
    pub open spec fn wf(&self) -> bool {
        self.rgba@.len() >= 4 * self.width * self.height
    }
}

/// Decodes an encoded image (its format detected from the bytes) to 8-bit RGBA.
pub fn decode_image(bytes: &[u8]) -> (r: Result<DecodedImage, TextureError>)
    ensures
        r is Ok <==> decoded_rgba(bytes@) is Some,
        r is Ok ==> r->Ok_0.wf() && decoded_rgba(bytes@) == Some(
            (r->Ok_0.width, r->Ok_0.height, r->Ok_0.rgba@),
        ),
        r is Err ==> r->Err_0 is Decode,
{
    match decode_rgba(bytes) {
        Ok((width, height, rgba)) => Ok(DecodedImage { width, height, rgba }),
        Err(e) => Err(TextureError::Decode(e)),
    }
}

/// Whether an image of `width` by `height` texels can be uploaded: neither
/// side is zero or above the device's limit, and a row's bytes fit in `u32`.
pub open spec fn texture_fits(width: u32, height: u32, max_dimension: u32) -> bool {
    0 < width <= max_dimension && 0 < height <= max_dimension && width <= u32::MAX / 4
}

/// Whether an image of `width` by `height` texels can be uploaded to a device
/// whose limit is `max_dimension`.
pub fn texture_size_ok(width: u32, height: u32, max_dimension: u32) -> (r: bool)
    ensures
        r == texture_fits(width, height, max_dimension),
{
    0 < width && width <= max_dimension && 0 < height && height <= max_dimension && width
        <= u32::MAX / 4
}

/// A GPU texture with its default view and its sampler.
pub struct Texture {
    pub texture: RgbaTexture,
    pub view: RgbaTextureView,
    pub sampler: TextureSampler,
    pub width: u32,
    pub height: u32,
}

/// The texture was made from an image of `width` by `height` with RGBA bytes
/// `rgba`: it has that size and the sRGB RGBA8 format, holds those bytes
/// (rows of `4 * width`), its view is the default view of it, and its sampler
/// clamps to the edge, magnifies linearly and minifies and picks mipmaps by
/// the nearest texel.
pub open spec fn texture_of(t: Texture, width: u32, height: u32, rgba: Seq<u8>) -> bool {
    &&& t.width == width && t.height == height
    &&& t.texture.spec_width() == width && t.texture.spec_height() == height
    &&& t.texture.spec_format() == TexelFormat::Rgba8UnormSrgb
    &&& t.texture.spec_texels() == Some(rgba.subrange(0, 4 * width * height))
    &&& t.view.spec_texture() == t.texture.spec_raw()
    &&& t.sampler.spec_settings() == (
        AddressMode::ClampToEdge,
        FilterMode::Linear,
        FilterMode::Nearest,
        FilterMode::Nearest,
    )
}

impl Texture {
    /// Decodes `bytes` and uploads the image as a texture labelled `label`:
    /// a decode error where the bytes are not an image, else what
    /// `from_image` gives for the decoded image.
    pub fn from_bytes(gpu: &GpuDevice, bytes: &[u8], label: &str) -> (r: Result<Texture, TextureError>)
        ensures
            decoded_rgba(bytes@) is None <==> (r is Err && r->Err_0 is Decode),
            decoded_rgba(bytes@) is Some ==> ({
                let (w, h, _) = decoded_rgba(bytes@)->0;
                &&& r is Ok <==> texture_fits(w, h, gpu.spec_max_dimension())
                &&& r is Ok ==> texture_of(r->Ok_0, w, h, (decoded_rgba(bytes@)->0).2)
                &&& r is Err ==> r->Err_0 is InvalidSize
            }),
    {
        let img = match decode_image(bytes) {
            Ok(img) => img,
            Err(e) => return Err(e),
        };
        Texture::from_image(gpu, &img, Some(label))
    }

    /// Uploads a decoded image as a 2D sRGB RGBA texture of the same size, rows
    /// of `4 * width` bytes, with a default view and a sampler that clamps to
    /// the edge, magnifies linearly and minifies to the nearest texel. Fails
    /// where the size does not fit the device.
    pub fn from_image(gpu: &GpuDevice, img: &DecodedImage, label: Option<&str>) -> (r: Result<
        Texture,
        TextureError,
    >)
        requires
            img.wf(),
        ensures
            r is Ok <==> texture_fits(img.width, img.height, gpu.spec_max_dimension()),
            r is Ok ==> texture_of(r->Ok_0, img.width, img.height, img.rgba@),
            r is Err ==> r->Err_0 is InvalidSize,
    {
        if !texture_size_ok(img.width, img.height, gpu.max_dimension()) {
            return Err(TextureError::InvalidSize);
        }
        let mut texture = new_rgba_texture(
            gpu,
            label,
            img.width,
            img.height,
            TexelFormat::Rgba8UnormSrgb,
        );
        let bytes_per_row: u32 = 4 * img.width;
        assert(img.rgba@.len() >= bytes_per_row * img.height) by (nonlinear_arith)
            requires
                img.rgba@.len() >= 4 * img.width * img.height,
                bytes_per_row == 4 * img.width,
        ;
        write_rgba_texture(gpu, &mut texture, img.rgba.as_slice(), bytes_per_row);
        let view = texture_view(&texture);
        let sampler = new_sampler(
            gpu,
            AddressMode::ClampToEdge,
            FilterMode::Linear,
            FilterMode::Nearest,
            FilterMode::Nearest,
        );
        Ok(Texture { texture, view, sampler, width: img.width, height: img.height })
    }
}

} // verus!
