//! Turning a decoded image into a sprite: the texture that holds it, the
//! upload of its pixels, its sampler and its bind group.

use vstd::prelude::*;
use crate::pipeline::{texture_layout, BindingKind, LayoutEntry};
use crate::surface::TextureUsage;

verus! {

/// The error with which the `image` crate refuses to decode an image.
#[verifier::external_type_specification]
#[verifier::external_body]
pub struct ExImageError(image::ImageError);

/// What the `image` crate decodes from the content of a file at the given
/// path, as RGBA pixels of eight bits a channel: width, height and the bytes
/// of the pixels, top row first; or `None` where it finds no image that it
/// can decode in the format that the path's extension names.
pub uninterp spec fn decoded_rgba8(path: Seq<char>, content: Seq<u8>) -> Option<(u32, u32, Seq<u8>)>;

/// The number of bytes of one pixel: red, green, blue and alpha, eight bits
/// each.
pub const BYTES_PER_PIXEL: u64 = 4;

/// An image as rows of RGBA pixels, top row first.
#[derive(Clone, Debug)]
pub struct DecodedImage {
    pub width: u32,
    pub height: u32,
    pub pixels: Vec<u8>,
}

/// The number of dimensions of a texture.
#[derive(Clone, Copy, Debug, PartialEq, Eq, Structural)]
pub enum TextureDimension {
    D1,
    D2,
    D3,
}

/// The encoding of a texel.
#[derive(Clone, Copy, Debug, PartialEq, Eq, Structural)]
pub enum TextureFormat {
    Rgba8Unorm,
    Rgba8UnormSrgb,
    Bgra8Unorm,
    Bgra8UnormSrgb,
}

/// The description of a texture.
#[derive(Clone, Copy, Debug, PartialEq, Eq, Structural)]
pub struct TextureSettings {
    pub width: u32,
    pub height: u32,
    pub depth_or_array_layers: u32,
    pub mip_level_count: u32,
    pub sample_count: u32,
    pub dimension: TextureDimension,
    pub format: TextureFormat,
    pub usage: TextureUsage,
}

/// How the uploaded bytes are laid out. A count of zero is written as
/// `None`.
#[derive(Clone, Copy, Debug, PartialEq, Eq, Structural)]
pub struct UploadLayout {
    pub offset: u64,
    pub bytes_per_row: Option<u64>,
    pub rows_per_image: Option<u32>,
}

/// What a sampler does with a coordinate outside the image.
#[derive(Clone, Copy, Debug, PartialEq, Eq, Structural)]
pub enum AddressMode {
    ClampToEdge,
    Repeat,
    MirrorRepeat,
}

/// How a sampler reads between texels or mip levels.
#[derive(Clone, Copy, Debug, PartialEq, Eq, Structural)]
pub enum FilterMode {
    Nearest,
    Linear,
}

/// The description of a sampler.
#[derive(Clone, Copy, Debug, PartialEq, Eq, Structural)]
pub struct SamplerSettings {
    pub address_mode_u: AddressMode,
    pub address_mode_v: AddressMode,
    pub address_mode_w: AddressMode,
    pub mag_filter: FilterMode,
    pub min_filter: FilterMode,
    pub mipmap_filter: FilterMode,
}

/// What a bind group puts into a slot.
#[derive(Clone, Copy, Debug, PartialEq, Eq, Structural)]
pub enum Resource {
    /// The default view of the sprite's texture.
    TextureView,
    /// The sprite's sampler.
    Sampler,
}

/// One slot of a bind group.
#[derive(Clone, Copy, Debug, PartialEq, Eq, Structural)]
pub struct BindGroupEntry {
    pub binding: u32,
    pub resource: Resource,
}

/// A sprite: a texture with the pixels to upload to it, a sampler, and the
/// bind group that hands both to the pipeline.
#[derive(Clone, Debug)]
pub struct SpriteResource {
    pub texture: TextureSettings,
    pub upload: UploadLayout,
    pub pixels: Vec<u8>,
    pub sampler: SamplerSettings,
    pub bind_group: Vec<BindGroupEntry>,
}

/// Why a sprite could not be loaded.
#[derive(Clone, Copy, Debug, PartialEq, Eq, Structural)]
pub enum LoadError {
    /// The file is missing, unreadable or no image that can be decoded.
    ImageDecodeError,
}

impl DecodedImage {
    /// The invariant of a decoded image: four bytes for each pixel.
    pub open spec fn wf(self) -> bool {
        self.pixels@.len() == BYTES_PER_PIXEL * self.width * self.height
    }

    /// The image as width, height and bytes.
    pub open spec fn view(self) -> (u32, u32, Seq<u8>) {
        (self.width, self.height, self.pixels@)
    }
}

/// The texture that holds an image of the given size: two-dimensional, one
/// layer, one mip level, one sample, sRGB-encoded RGBA, to be copied into
/// and sampled from.
pub open spec fn sprite_texture(width: u32, height: u32) -> TextureSettings {
    TextureSettings {
        width,
        height,
        depth_or_array_layers: 1,
        mip_level_count: 1,
        sample_count: 1,
        dimension: TextureDimension::D2,
        format: TextureFormat::Rgba8UnormSrgb,
        usage: TextureUsage {
            copy_src: false,
            copy_dst: true,
            texture_binding: true,
            storage_binding: false,
            render_attachment: false,
        },
    }
}

/// The layout of an image's bytes: rows of four bytes for each pixel of the
/// width, as many rows as the height.
pub open spec fn sprite_upload(width: u32, height: u32) -> UploadLayout {
    UploadLayout {
        offset: 0,
        bytes_per_row: if width == 0 {
            None
        } else {
            Some((BYTES_PER_PIXEL * width) as u64)
        },
        rows_per_image: if height == 0 {
            None
        } else {
            Some(height)
        },
    }
}

/// The sampler of a sprite: clamped to the edge on every axis, linear
/// between texels, nearest between mip levels.
pub open spec fn sprite_sampler() -> SamplerSettings {
    SamplerSettings {
        address_mode_u: AddressMode::ClampToEdge,
        address_mode_v: AddressMode::ClampToEdge,
        address_mode_w: AddressMode::ClampToEdge,
        mag_filter: FilterMode::Linear,
        min_filter: FilterMode::Linear,
        mipmap_filter: FilterMode::Nearest,
    }
}

/// The bind group of a sprite: its texture's view in slot 0, its sampler in
/// slot 1.
pub open spec fn sprite_bindings() -> Seq<BindGroupEntry> {
    seq![
        BindGroupEntry { binding: 0, resource: Resource::TextureView },
        BindGroupEntry { binding: 1, resource: Resource::Sampler },
    ]
}

/// Whether a resource may stand in a slot of the given kind.
pub open spec fn fits(resource: Resource, kind: BindingKind) -> bool {
    match kind {
        BindingKind::Texture2d { .. } => resource == Resource::TextureView,
        BindingKind::Sampler { .. } => resource == Resource::Sampler,
    }
}

/// Whether a bind group satisfies a layout: slot for slot the same binding
/// number, and a resource of the kind that the layout asks for.
pub open spec fn satisfies(entries: Seq<BindGroupEntry>, layout: Seq<LayoutEntry>) -> bool {
    &&& entries.len() == layout.len()
    &&& forall|i: int|
        0 <= i < entries.len() ==> {
            &&& (#[trigger] entries[i]).binding == layout[i].binding
            &&& fits(entries[i].resource, layout[i].kind)
        }
}

impl SpriteResource {
    /// Whether this is the sprite of the image of the given width and height
    /// with the given bytes.
    pub open spec fn is_sprite_of(self, image: (u32, u32, Seq<u8>)) -> bool {
        &&& self.texture == sprite_texture(image.0, image.1)
        &&& self.upload == sprite_upload(image.0, image.1)
        &&& self.pixels@ == image.2
        &&& self.sampler == sprite_sampler()
        &&& self.bind_group@ == sprite_bindings()
    }
}

/// Decodes the content of an image file with the `image` crate:
/// `ImageFormat::from_path` takes the format from the path's extension,
/// `load_from_memory_with_format` decodes the bytes in that format, and
/// `DynamicImage::to_rgba8` converts the pixels; `dimensions` and `into_raw`
/// take the buffer apart.
///
/// Trusted: the outcome depends on the path and the bytes alone, and the
/// buffer of a decoded image holds exactly four bytes for each pixel of its
/// width and height. The decoder's default limits refuse an image of more
/// than 512 MiB, so that the RGBA buffer's length is computed without
/// overflow.
///
/// The `image` crate is built with its PNG, BMP and GIF decoders alone. Its
/// JPEG decoder panics on some lossless frames, so it is left out: a path
/// that names a JPEG file, like any path whose extension names no decoder
/// that was built, gives the crate's error for an unsupported format.
#[verifier::external_body]
fn decode_rgba8(path: &str, content: &[u8]) -> (r: Result<DecodedImage, image::ImageError>)
    ensures
        (match r {
            Ok(image) => image.wf() && decoded_rgba8(path@, content@) == Some(image@),
            Err(_) => decoded_rgba8(path@, content@) is None,
        }),
{
    let format = image::ImageFormat::from_path(path)?;
    let buffer = image::load_from_memory_with_format(content, format)?.to_rgba8();
    let (width, height) = buffer.dimensions();
    Ok(DecodedImage { width, height, pixels: buffer.into_raw() })
}

/// The sampler of a sprite.
pub fn sampler_settings() -> (r: SamplerSettings)
    ensures
        r == sprite_sampler(),
{
    SamplerSettings {
        address_mode_u: AddressMode::ClampToEdge,
        address_mode_v: AddressMode::ClampToEdge,
        address_mode_w: AddressMode::ClampToEdge,
        mag_filter: FilterMode::Linear,
        min_filter: FilterMode::Linear,
        mipmap_filter: FilterMode::Nearest,
    }
}

/// The layout of the bytes of an image of the given size.
pub fn upload_layout(width: u32, height: u32) -> (r: UploadLayout)
    ensures
        r == sprite_upload(width, height),
{
    let wide: u64 = width as u64;
    UploadLayout {
        offset: 0,
        bytes_per_row: if width == 0 {
            None
        } else {
            Some(BYTES_PER_PIXEL * wide)
        },
        rows_per_image: if height == 0 {
            None
        } else {
            Some(height)
        },
    }
}

/// Builds the sprite of a decoded image.
pub fn sprite_for(image: DecodedImage) -> (r: SpriteResource)
    ensures
        r.is_sprite_of(image@),
        satisfies(r.bind_group@, texture_layout()),
{
    let bind_group = vec![
        BindGroupEntry { binding: 0, resource: Resource::TextureView },
        BindGroupEntry { binding: 1, resource: Resource::Sampler },
    ];
    assert(bind_group@ =~= sprite_bindings());
    proof {
        lemma_sprite_bindings_satisfy_layout();
    }
    SpriteResource {
        texture: TextureSettings {
            width: image.width,
            height: image.height,
            depth_or_array_layers: 1,
            mip_level_count: 1,
            sample_count: 1,
            dimension: TextureDimension::D2,
            format: TextureFormat::Rgba8UnormSrgb,
            usage: TextureUsage {
                copy_src: false,
                copy_dst: true,
                texture_binding: true,
                storage_binding: false,
                render_attachment: false,
            },
        },
        upload: upload_layout(image.width, image.height),
        pixels: image.pixels,
        sampler: sampler_settings(),
        bind_group,
    }
}

/// The outcome that loading owes to what was decoded: without an image an
/// `ImageDecodeError`, with one its sprite.
pub open spec fn is_load_outcome(
    r: Result<SpriteResource, LoadError>,
    decoded: Option<(u32, u32, Seq<u8>)>,
) -> bool {
    match decoded {
        None => r == Err::<SpriteResource, LoadError>(LoadError::ImageDecodeError),
        Some(image) => r is Ok && r->Ok_0.is_sprite_of(image),
    }
}

/// Loads a sprite from the content of the image file at `path`, or from
/// `None` where the file could not be read. A file that is missing,
/// unreadable or no image that can be decoded gives an `ImageDecodeError`;
/// an image becomes the sprite of its RGBA pixels. PNG, BMP and GIF files
/// can be decoded.
pub fn load_sprite(path: &str, content: Option<Vec<u8>>) -> (r: Result<SpriteResource, LoadError>)
    ensures
        is_load_outcome(
            r,
            match content {
                None => None,
                Some(bytes) => decoded_rgba8(path@, bytes@),
            },
        ),
        r is Ok ==> satisfies(r->Ok_0.bind_group@, texture_layout()),
{
    match content {
        None => Err(LoadError::ImageDecodeError),
        Some(bytes) => match decode_rgba8(path, bytes.as_slice()) {
            Err(_) => Err(LoadError::ImageDecodeError),
            Ok(image) => Ok(sprite_for(image)),
        },
    }
}

/// The bind group of a sprite satisfies the layout of the sprite pipeline.
pub proof fn lemma_sprite_bindings_satisfy_layout()
    ensures
        satisfies(sprite_bindings(), texture_layout()),
{
}

/// The bytes of a well-formed image are exactly the rows that its upload
/// layout describes.
pub proof fn lemma_upload_covers_pixels(image: DecodedImage)
    requires
        image.wf(),
        image.width > 0,
        image.height > 0,
    ensures
        sprite_upload(image.width, image.height).bytes_per_row is Some,
        sprite_upload(image.width, image.height).rows_per_image is Some,
        image.pixels@.len() == sprite_upload(image.width, image.height).bytes_per_row->Some_0
            * sprite_upload(image.width, image.height).rows_per_image->Some_0,
{
}

} // verus!
