use vstd::prelude::*;
use vstd::arithmetic::div_mod::{
    lemma_fundamental_div_mod,
    lemma_fundamental_div_mod_converse,
    lemma_mod_bound,
};
use crate::scalar::{ONE_BITS, ZERO_BITS};

verus! {

/// Names an object that lives on the graphics device: a buffer, an image or
/// a sampler. Whoever uploads the object picks the number.
#[derive(Clone, Copy, Debug, PartialEq, Eq, Structural)]
pub struct GpuHandle {
    pub id: u64,
}

/// Position of a texture in the asset manager's store.
#[derive(Clone, Copy, Debug, PartialEq, Eq, Structural)]
pub struct TextureHandle {
    pub index: usize,
}

/// Image applied on mesh
#[derive(Clone, Debug, PartialEq, Eq)]
pub struct Texture {
    pub name: String,
    pub image_buffer: GpuHandle,
    pub sampler: GpuHandle,
}

impl Texture {
    /// Creates new texture from an uploaded image and its sampler.
    pub fn new(name: String, image_buffer: GpuHandle, sampler: GpuHandle) -> (texture: Texture)
        ensures
            texture.name@ == name@,
            texture.image_buffer == image_buffer,
            texture.sampler == sampler,
    {
        Texture { name, image_buffer, sampler }
    }

    /// Returns name of this texture.
    pub fn name(&self) -> (name: &String)
        ensures
            name@ == self.name@,
    {
        &self.name
    }

    /// Returns image buffer used by this texture.
    pub fn image_buffer(&self) -> (image_buffer: GpuHandle)
        ensures
            image_buffer == self.image_buffer,
    {
        self.image_buffer
    }

    /// Returns sampler used by this texture.
    pub fn sampler(&self) -> (sampler: GpuHandle)
        ensures
            sampler == self.sampler,
    {
        self.sampler
    }
}

/// How a texture is read between its pixels.
#[derive(Clone, Copy, Debug, PartialEq, Eq, Structural)]
pub enum Filter {
    Nearest,
    Linear,
}

/// How a texture is read between its levels of detail.
#[derive(Clone, Copy, Debug, PartialEq, Eq, Structural)]
pub enum MipmapMode {
    Nearest,
    Linear,
}

/// How a texture is read beyond its edges.
#[derive(Clone, Copy, Debug, PartialEq, Eq, Structural)]
pub enum SamplerAddressMode {
    Repeat,
    MirroredRepeat,
    ClampToEdge,
}

/// How the textures of the engine are read. The last four fields are the
/// bit patterns of single-precision numbers.
#[derive(Clone, Copy, Debug, PartialEq, Eq, Structural)]
pub struct SamplerDescription {
    pub mag_filter: Filter,
    pub min_filter: Filter,
    pub mipmap_mode: MipmapMode,
    pub address_u: SamplerAddressMode,
    pub address_v: SamplerAddressMode,
    pub address_w: SamplerAddressMode,
    pub mip_lod_bias: u32,
    pub max_anisotropy: u32,
    pub min_lod: u32,
    pub max_lod: u32,
}

/// A picture of `width` by `height` pixels, row after row, each pixel
/// four bytes: red, green, blue, alpha.
#[derive(Clone, Debug, PartialEq, Eq)]
pub struct TextureImage {
    pub width: u32,
    pub height: u32,
    pub pixels: Vec<u8>,
}

/// The picture upside down: each row stands where the row as far from the
/// other edge stood.
pub open spec fn spec_flip_vertical(pixels: Seq<u8>, width: int, height: int) -> Seq<u8> {
    Seq::new(
        pixels.len(),
        |i: int| pixels[(height - 1 - i / (4 * width)) * (4 * width) + i % (4 * width)],
    )
}

/// Turns a picture upside down, by `image::imageops::flip_vertical` on an
/// `image::RgbaImage` made of the pixels.
///
/// Not verified. Claimed of the outside function: the picture it returns
/// has the size of the one it gets, and the pixel at column `x` of row
/// `y` stands at column `x` of row `height - 1 - y`. The picture has at
/// least one pixel: the outside crate multiplies four by the width before
/// it looks at the height, which for a picture without rows may be more
/// than the machine can count.
#[verifier::external_body]
fn flip_vertical(width: u32, height: u32, pixels: Vec<u8>) -> (flipped: Vec<u8>)
    requires
        width > 0,
        height > 0,
        pixels@.len() == 4 * width * height,
    ensures
        flipped@ == spec_flip_vertical(pixels@, width as int, height as int),
{
    let picture: image::RgbaImage = image::ImageBuffer::from_raw(width, height, pixels).unwrap();
    image::imageops::flip_vertical(&picture).into_raw()
}

impl TextureImage {
    /// The picture has as many bytes as its size asks for.
    pub open spec fn wf(&self) -> bool {
        self.pixels@.len() == 4 * self.width * self.height
    }

    /// Makes a picture of the pixels, where they are as many as the size
    /// asks for.
    pub fn new(width: u32, height: u32, pixels: Vec<u8>) -> (picture: Option<TextureImage>)
        ensures
            match picture {
                Some(p) => p.wf() && p == (TextureImage { width, height, pixels }),
                None => pixels@.len() != 4 * width * height,
            },
    {
        assert(width * height <= 0xffff_ffff * 0xffff_ffff) by (nonlinear_arith)
            requires
                0 <= width <= 0xffff_ffff,
                0 <= height <= 0xffff_ffff,
        ;
        let texels: u64 = (width as u64) * (height as u64);
        let bytes: u128 = 4 * (texels as u128);
        assert(bytes == 4 * width * height) by (nonlinear_arith)
            requires
                bytes == 4 * texels,
                texels == width * height,
        ;
        if pixels.len() as u128 == bytes {
            Some(TextureImage { width, height, pixels })
        } else {
            None
        }
    }

    /// Returns the picture upside down. A picture without a pixel is its
    /// own flip.
    pub fn flipv(self) -> (flipped: TextureImage)
        requires
            self.wf(),
        ensures
            flipped.wf(),
            flipped.width == self.width,
            flipped.height == self.height,
            flipped.pixels@ == spec_flip_vertical(
                self.pixels@,
                self.width as int,
                self.height as int,
            ),
    {
        if self.width == 0 || self.height == 0 {
            assert(4 * self.width * self.height == 0) by (nonlinear_arith)
                requires
                    self.width == 0 || self.height == 0,
            ;
            assert(self.pixels@ =~= spec_flip_vertical(
                self.pixels@,
                self.width as int,
                self.height as int,
            ));
            return self;
        }
        let flipped = flip_vertical(self.width, self.height, self.pixels);
        TextureImage { width: self.width, height: self.height, pixels: flipped }
    }
}

impl Texture {
    /// What is uploaded for a texture that shows the given picture: the
    /// picture upside down, as the graphics device counts its rows from
    /// the other edge. There is nothing to upload where the pixels are not
    /// as many as the size asks for.
    pub fn prepare_image(width: u32, height: u32, pixels: Vec<u8>) -> (upload: Option<TextureImage>)
        ensures
            match upload {
                Some(picture) => {
                    &&& pixels@.len() == 4 * width * height
                    &&& picture.wf()
                    &&& picture.width == width
                    &&& picture.height == height
                    &&& picture.pixels@ == spec_flip_vertical(pixels@, width as int, height as int)
                },
                None => pixels@.len() != 4 * width * height,
            },
    {
        match TextureImage::new(width, height, pixels) {
            Some(picture) => Some(picture.flipv()),
            None => None,
        }
    }

    /// How the textures of the engine are read: smoothly between pixels,
    /// from the nearest level of detail, and over and over beyond the
    /// edges.
    pub fn sampler_description() -> (sampler: SamplerDescription)
        ensures
            sampler == (SamplerDescription {
                mag_filter: Filter::Linear,
                min_filter: Filter::Linear,
                mipmap_mode: MipmapMode::Nearest,
                address_u: SamplerAddressMode::Repeat,
                address_v: SamplerAddressMode::Repeat,
                address_w: SamplerAddressMode::Repeat,
                mip_lod_bias: ZERO_BITS,
                max_anisotropy: ONE_BITS,
                min_lod: ZERO_BITS,
                max_lod: ONE_BITS,
            }),
    {
        SamplerDescription {
            mag_filter: Filter::Linear,
            min_filter: Filter::Linear,
            mipmap_mode: MipmapMode::Nearest,
            address_u: SamplerAddressMode::Repeat,
            address_v: SamplerAddressMode::Repeat,
            address_w: SamplerAddressMode::Repeat,
            mip_lod_bias: ZERO_BITS,
            max_anisotropy: ONE_BITS,
            min_lod: ZERO_BITS,
            max_lod: ONE_BITS,
        }
    }
}

/// A picture turned upside down twice is the picture.
pub proof fn lemma_flip_twice(pixels: Seq<u8>, width: int, height: int)
    requires
        0 <= width,
        0 <= height,
        pixels.len() == 4 * width * height,
    ensures
        spec_flip_vertical(spec_flip_vertical(pixels, width, height), width, height) == pixels,
{
    let once = spec_flip_vertical(pixels, width, height);
    let twice = spec_flip_vertical(once, width, height);
    let row_bytes = 4 * width;
    assert forall|i: int| 0 <= i < pixels.len() implies twice[i] == pixels[i] by {
        assert(width > 0 && height > 0) by (nonlinear_arith)
            requires
                0 <= width,
                0 <= height,
                0 <= i < 4 * width * height,
        ;
        let row = i / row_bytes;
        let within = i % row_bytes;
        lemma_fundamental_div_mod(i, row_bytes);
        lemma_mod_bound(i, row_bytes);
        assert(0 <= row < height) by (nonlinear_arith)
            requires
                i == row_bytes * row + within,
                0 <= within < row_bytes,
                0 <= i < row_bytes * height,
                row_bytes > 0,
        ;
        let other = (height - 1 - row) * row_bytes + within;
        assert(other == within + (height - 1 - row) * row_bytes);
        lemma_fundamental_div_mod_converse(other, row_bytes, height - 1 - row, within);
        assert(0 <= other < pixels.len()) by (nonlinear_arith)
            requires
                other == (height - 1 - row) * row_bytes + within,
                0 <= within < row_bytes,
                0 <= row < height,
                pixels.len() == row_bytes * height,
        ;
        assert((height - 1 - (height - 1 - row)) * row_bytes + within == i) by (nonlinear_arith)
            requires
                i == row_bytes * row + within,
        ;
    }
    assert(twice =~= pixels);
}

} // verus!
