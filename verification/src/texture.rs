//! Texture formats, texel blocks, dimensions, usage flags and texture descriptions.
use vstd::prelude::*;
use crate::draw::CustomBufferSource;

verus! {

/// Texture formats supported by custom draw.
#[derive(Debug, Clone, Copy, PartialEq, Eq, Structural)]
pub enum CustomTextureFormat {
    /// R8 unorm.
    R8Unorm,
    /// RG8 unorm.
    Rg8Unorm,
    /// RGBA8 unorm.
    Rgba8Unorm,
    /// BGRA8 unorm.
    Bgra8Unorm,
    /// RGBA8 unorm sRGB.
    Rgba8UnormSrgb,
    /// BGRA8 unorm sRGB.
    Bgra8UnormSrgb,
    /// BC1/DXT1 RGBA.
    Bc1Unorm,
    /// BC1/DXT1 RGBA sRGB.
    Bc1UnormSrgb,
    /// BC3/DXT5 RGBA.
    Bc3Unorm,
    /// BC3/DXT5 RGBA sRGB.
    Bc3UnormSrgb,
    /// BC7 RGBA.
    Bc7Unorm,
    /// BC7 RGBA sRGB.
    Bc7UnormSrgb,
    /// ETC2 RGB8.
    Etc2Rgb8Unorm,
    /// ETC2 RGB8 sRGB.
    Etc2Rgb8UnormSrgb,
    /// ETC2 RGBA8.
    Etc2Rgba8Unorm,
    /// ETC2 RGBA8 sRGB.
    Etc2Rgba8UnormSrgb,
    /// ASTC 4x4 LDR.
    Astc4x4Unorm,
    /// ASTC 4x4 LDR sRGB.
    Astc4x4UnormSrgb,
    /// ASTC 5x5 LDR.
    Astc5x5Unorm,
    /// ASTC 5x5 LDR sRGB.
    Astc5x5UnormSrgb,
    /// ASTC 6x6 LDR.
    Astc6x6Unorm,
    /// ASTC 6x6 LDR sRGB.
    Astc6x6UnormSrgb,
    /// ASTC 8x8 LDR.
    Astc8x8Unorm,
    /// ASTC 8x8 LDR sRGB.
    Astc8x8UnormSrgb,
    /// PVRTC RGB 2bpp.
    PvrtcRgb2bppUnorm,
    /// PVRTC RGB 2bpp sRGB.
    PvrtcRgb2bppUnormSrgb,
    /// PVRTC RGBA 2bpp.
    PvrtcRgba2bppUnorm,
    /// PVRTC RGBA 2bpp sRGB.
    PvrtcRgba2bppUnormSrgb,
    /// PVRTC RGB 4bpp.
    PvrtcRgb4bppUnorm,
    /// PVRTC RGB 4bpp sRGB.
    PvrtcRgb4bppUnormSrgb,
    /// PVRTC RGBA 4bpp.
    PvrtcRgba4bppUnorm,
    /// PVRTC RGBA 4bpp sRGB.
    PvrtcRgba4bppUnormSrgb,
}

/// Width and height in texels, and size in bytes, of one texel block.
#[derive(Debug, Clone, Copy, PartialEq, Eq, Structural)]
pub struct CustomTexelBlockInfo {
    pub width: u32,
    pub height: u32,
    pub bytes: u32,
}

/// A texel block of the given width, height and byte size.
pub open spec fn block(width: u32, height: u32, bytes: u32) -> CustomTexelBlockInfo {
    CustomTexelBlockInfo { width, height, bytes }
}

/// The texel block of each format: single texels for plain formats, the
/// compression block for BC, ETC2, ASTC and PVRTC formats.
pub open spec fn texel_block(format: CustomTextureFormat) -> CustomTexelBlockInfo {
    match format {
        CustomTextureFormat::R8Unorm => block(1, 1, 1),
        CustomTextureFormat::Rg8Unorm => block(1, 1, 2),
        CustomTextureFormat::Rgba8Unorm
        | CustomTextureFormat::Bgra8Unorm
        | CustomTextureFormat::Rgba8UnormSrgb
        | CustomTextureFormat::Bgra8UnormSrgb => block(1, 1, 4),
        CustomTextureFormat::Bc1Unorm
        | CustomTextureFormat::Bc1UnormSrgb
        | CustomTextureFormat::Etc2Rgb8Unorm
        | CustomTextureFormat::Etc2Rgb8UnormSrgb => block(4, 4, 8),
        CustomTextureFormat::Bc3Unorm
        | CustomTextureFormat::Bc3UnormSrgb
        | CustomTextureFormat::Bc7Unorm
        | CustomTextureFormat::Bc7UnormSrgb
        | CustomTextureFormat::Etc2Rgba8Unorm
        | CustomTextureFormat::Etc2Rgba8UnormSrgb
        | CustomTextureFormat::Astc4x4Unorm
        | CustomTextureFormat::Astc4x4UnormSrgb => block(4, 4, 16),
        CustomTextureFormat::Astc5x5Unorm
        | CustomTextureFormat::Astc5x5UnormSrgb => block(5, 5, 16),
        CustomTextureFormat::Astc6x6Unorm
        | CustomTextureFormat::Astc6x6UnormSrgb => block(6, 6, 16),
        CustomTextureFormat::Astc8x8Unorm
        | CustomTextureFormat::Astc8x8UnormSrgb => block(8, 8, 16),
        CustomTextureFormat::PvrtcRgb2bppUnorm
        | CustomTextureFormat::PvrtcRgb2bppUnormSrgb
        | CustomTextureFormat::PvrtcRgba2bppUnorm
        | CustomTextureFormat::PvrtcRgba2bppUnormSrgb => block(16, 8, 8),
        CustomTextureFormat::PvrtcRgb4bppUnorm
        | CustomTextureFormat::PvrtcRgb4bppUnormSrgb
        | CustomTextureFormat::PvrtcRgba4bppUnorm
        | CustomTextureFormat::PvrtcRgba4bppUnormSrgb => block(8, 4, 8),
    }
}

/// A format is block-compressed when its block spans more than one texel.
pub open spec fn format_is_compressed(format: CustomTextureFormat) -> bool {
    texel_block(format).width > 1 || texel_block(format).height > 1
}

/// Bits of one encoded block: one texel of 8 bits per channel for plain
/// formats; 64 bits for BC1, ETC2 RGB8 and PVRTC blocks; 128 bits for BC3,
/// BC7, ETC2 RGBA8 and every ASTC block.
pub open spec fn encoded_block_bits(format: CustomTextureFormat) -> nat {
    match format {
        CustomTextureFormat::R8Unorm => 8,
        CustomTextureFormat::Rg8Unorm => 16,
        CustomTextureFormat::Rgba8Unorm => 32,
        CustomTextureFormat::Bgra8Unorm => 32,
        CustomTextureFormat::Rgba8UnormSrgb => 32,
        CustomTextureFormat::Bgra8UnormSrgb => 32,
        CustomTextureFormat::Bc1Unorm => 64,
        CustomTextureFormat::Bc1UnormSrgb => 64,
        CustomTextureFormat::Bc3Unorm => 128,
        CustomTextureFormat::Bc3UnormSrgb => 128,
        CustomTextureFormat::Bc7Unorm => 128,
        CustomTextureFormat::Bc7UnormSrgb => 128,
        CustomTextureFormat::Etc2Rgb8Unorm => 64,
        CustomTextureFormat::Etc2Rgb8UnormSrgb => 64,
        CustomTextureFormat::Etc2Rgba8Unorm => 128,
        CustomTextureFormat::Etc2Rgba8UnormSrgb => 128,
        CustomTextureFormat::Astc4x4Unorm => 128,
        CustomTextureFormat::Astc4x4UnormSrgb => 128,
        CustomTextureFormat::Astc5x5Unorm => 128,
        CustomTextureFormat::Astc5x5UnormSrgb => 128,
        CustomTextureFormat::Astc6x6Unorm => 128,
        CustomTextureFormat::Astc6x6UnormSrgb => 128,
        CustomTextureFormat::Astc8x8Unorm => 128,
        CustomTextureFormat::Astc8x8UnormSrgb => 128,
        CustomTextureFormat::PvrtcRgb2bppUnorm => 64,
        CustomTextureFormat::PvrtcRgb2bppUnormSrgb => 64,
        CustomTextureFormat::PvrtcRgba2bppUnorm => 64,
        CustomTextureFormat::PvrtcRgba2bppUnormSrgb => 64,
        CustomTextureFormat::PvrtcRgb4bppUnorm => 64,
        CustomTextureFormat::PvrtcRgb4bppUnormSrgb => 64,
        CustomTextureFormat::PvrtcRgba4bppUnorm => 64,
        CustomTextureFormat::PvrtcRgba4bppUnormSrgb => 64,
    }
}

/// Texels across and down one encoded block: 1x1 for plain formats, 4x4
/// for BC and ETC2, the named size for ASTC, 16x8 for 2-bit and 8x4 for
/// 4-bit PVRTC.
pub open spec fn encoded_block_extent(format: CustomTextureFormat) -> (nat, nat) {
    match format {
        CustomTextureFormat::R8Unorm | CustomTextureFormat::Rg8Unorm | CustomTextureFormat::Rgba8Unorm
        | CustomTextureFormat::Bgra8Unorm | CustomTextureFormat::Rgba8UnormSrgb
        | CustomTextureFormat::Bgra8UnormSrgb => (1, 1),
        CustomTextureFormat::Bc1Unorm | CustomTextureFormat::Bc1UnormSrgb | CustomTextureFormat::Bc3Unorm
        | CustomTextureFormat::Bc3UnormSrgb | CustomTextureFormat::Bc7Unorm | CustomTextureFormat::Bc7UnormSrgb
        | CustomTextureFormat::Etc2Rgb8Unorm | CustomTextureFormat::Etc2Rgb8UnormSrgb
        | CustomTextureFormat::Etc2Rgba8Unorm | CustomTextureFormat::Etc2Rgba8UnormSrgb
        | CustomTextureFormat::Astc4x4Unorm | CustomTextureFormat::Astc4x4UnormSrgb => (4, 4),
        CustomTextureFormat::Astc5x5Unorm | CustomTextureFormat::Astc5x5UnormSrgb => (5, 5),
        CustomTextureFormat::Astc6x6Unorm | CustomTextureFormat::Astc6x6UnormSrgb => (6, 6),
        CustomTextureFormat::Astc8x8Unorm | CustomTextureFormat::Astc8x8UnormSrgb => (8, 8),
        CustomTextureFormat::PvrtcRgb2bppUnorm | CustomTextureFormat::PvrtcRgb2bppUnormSrgb
        | CustomTextureFormat::PvrtcRgba2bppUnorm | CustomTextureFormat::PvrtcRgba2bppUnormSrgb => (16, 8),
        CustomTextureFormat::PvrtcRgb4bppUnorm | CustomTextureFormat::PvrtcRgb4bppUnormSrgb
        | CustomTextureFormat::PvrtcRgba4bppUnorm | CustomTextureFormat::PvrtcRgba4bppUnormSrgb => (8, 4),
    }
}

/// Each format's texel block is its encoded block: as many texels across
/// and down, and as many bytes as the block has bits over eight.
pub proof fn lemma_block_matches_encoding(format: CustomTextureFormat)
    ensures
        texel_block(format).bytes * 8 == encoded_block_bits(format),
        (texel_block(format).width as nat, texel_block(format).height as nat) == encoded_block_extent(format),
{
}

impl CustomTextureFormat {
    /// Returns block width/height and byte size for this format.
    pub fn block_info(self) -> (r: CustomTexelBlockInfo)
        ensures
            r == texel_block(self),
            r.bytes * 8 == encoded_block_bits(self),
            (r.width as nat, r.height as nat) == encoded_block_extent(self),
    {
        proof {
            lemma_block_matches_encoding(self);
        }
        match self {
            CustomTextureFormat::R8Unorm => CustomTexelBlockInfo { width: 1, height: 1, bytes: 1 },
            CustomTextureFormat::Rg8Unorm => CustomTexelBlockInfo { width: 1, height: 1, bytes: 2 },
            CustomTextureFormat::Rgba8Unorm
            | CustomTextureFormat::Bgra8Unorm
            | CustomTextureFormat::Rgba8UnormSrgb
            | CustomTextureFormat::Bgra8UnormSrgb => CustomTexelBlockInfo { width: 1, height: 1, bytes: 4 },
            CustomTextureFormat::Bc1Unorm
            | CustomTextureFormat::Bc1UnormSrgb
            | CustomTextureFormat::Etc2Rgb8Unorm
            | CustomTextureFormat::Etc2Rgb8UnormSrgb => CustomTexelBlockInfo { width: 4, height: 4, bytes: 8 },
            CustomTextureFormat::Bc3Unorm
            | CustomTextureFormat::Bc3UnormSrgb
            | CustomTextureFormat::Bc7Unorm
            | CustomTextureFormat::Bc7UnormSrgb
            | CustomTextureFormat::Etc2Rgba8Unorm
            | CustomTextureFormat::Etc2Rgba8UnormSrgb
            | CustomTextureFormat::Astc4x4Unorm
            | CustomTextureFormat::Astc4x4UnormSrgb => CustomTexelBlockInfo { width: 4, height: 4, bytes: 16 },
            CustomTextureFormat::Astc5x5Unorm
            | CustomTextureFormat::Astc5x5UnormSrgb => CustomTexelBlockInfo { width: 5, height: 5, bytes: 16 },
            CustomTextureFormat::Astc6x6Unorm
            | CustomTextureFormat::Astc6x6UnormSrgb => CustomTexelBlockInfo { width: 6, height: 6, bytes: 16 },
            CustomTextureFormat::Astc8x8Unorm
            | CustomTextureFormat::Astc8x8UnormSrgb => CustomTexelBlockInfo { width: 8, height: 8, bytes: 16 },
            CustomTextureFormat::PvrtcRgb2bppUnorm
            | CustomTextureFormat::PvrtcRgb2bppUnormSrgb
            | CustomTextureFormat::PvrtcRgba2bppUnorm
            | CustomTextureFormat::PvrtcRgba2bppUnormSrgb => CustomTexelBlockInfo { width: 16, height: 8, bytes: 8 },
            CustomTextureFormat::PvrtcRgb4bppUnorm
            | CustomTextureFormat::PvrtcRgb4bppUnormSrgb
            | CustomTextureFormat::PvrtcRgba4bppUnorm
            | CustomTextureFormat::PvrtcRgba4bppUnormSrgb => CustomTexelBlockInfo { width: 8, height: 4, bytes: 8 },
        }
    }

    /// Returns true when this format uses block compression.
    pub fn is_compressed(self) -> (r: bool)
        ensures
            r == format_is_compressed(self),
    {
        let info = self.block_info();
        info.width > 1 || info.height > 1
    }
}

/// Families of block-compressed formats that a device samples or not.
#[derive(Debug, Clone, Copy, PartialEq, Eq, Structural)]
pub enum CustomCompressionFamily {
    Bc,
    EacEtc,
    Astc,
    Pvrtc,
}

/// The compression family of a format; `None` for uncompressed formats.
pub open spec fn compression_family_of(format: CustomTextureFormat) -> Option<CustomCompressionFamily> {
    match format {
        CustomTextureFormat::Bc1Unorm | CustomTextureFormat::Bc1UnormSrgb | CustomTextureFormat::Bc3Unorm
        | CustomTextureFormat::Bc3UnormSrgb | CustomTextureFormat::Bc7Unorm
        | CustomTextureFormat::Bc7UnormSrgb => Some(CustomCompressionFamily::Bc),
        CustomTextureFormat::Etc2Rgb8Unorm | CustomTextureFormat::Etc2Rgb8UnormSrgb
        | CustomTextureFormat::Etc2Rgba8Unorm
        | CustomTextureFormat::Etc2Rgba8UnormSrgb => Some(CustomCompressionFamily::EacEtc),
        CustomTextureFormat::Astc4x4Unorm | CustomTextureFormat::Astc4x4UnormSrgb
        | CustomTextureFormat::Astc5x5Unorm | CustomTextureFormat::Astc5x5UnormSrgb
        | CustomTextureFormat::Astc6x6Unorm | CustomTextureFormat::Astc6x6UnormSrgb
        | CustomTextureFormat::Astc8x8Unorm
        | CustomTextureFormat::Astc8x8UnormSrgb => Some(CustomCompressionFamily::Astc),
        CustomTextureFormat::PvrtcRgb2bppUnorm | CustomTextureFormat::PvrtcRgb2bppUnormSrgb
        | CustomTextureFormat::PvrtcRgba2bppUnorm | CustomTextureFormat::PvrtcRgba2bppUnormSrgb
        | CustomTextureFormat::PvrtcRgb4bppUnorm | CustomTextureFormat::PvrtcRgb4bppUnormSrgb
        | CustomTextureFormat::PvrtcRgba4bppUnorm
        | CustomTextureFormat::PvrtcRgba4bppUnormSrgb => Some(CustomCompressionFamily::Pvrtc),
        _ => None,
    }
}

/// Which compression families a device can sample.
#[derive(Debug, Clone, Copy, PartialEq, Eq, Structural)]
pub struct CustomCompressionSupport {
    pub bc: bool,
    pub eac_etc: bool,
    pub astc: bool,
    pub pvrtc: bool,
}

/// Whether a device with `support` samples `format`: uncompressed formats
/// always, compressed ones when the device supports their family.
pub open spec fn format_supported_with(format: CustomTextureFormat, support: CustomCompressionSupport) -> bool {
    match compression_family_of(format) {
        None => true,
        Some(CustomCompressionFamily::Bc) => support.bc,
        Some(CustomCompressionFamily::EacEtc) => support.eac_etc,
        Some(CustomCompressionFamily::Astc) => support.astc,
        Some(CustomCompressionFamily::Pvrtc) => support.pvrtc,
    }
}

impl CustomTextureFormat {
    /// The compression family of this format; `None` when uncompressed.
    pub fn compression_family(self) -> (r: Option<CustomCompressionFamily>)
        ensures
            r == compression_family_of(self),
    {
        match self {
            CustomTextureFormat::Bc1Unorm | CustomTextureFormat::Bc1UnormSrgb | CustomTextureFormat::Bc3Unorm
            | CustomTextureFormat::Bc3UnormSrgb | CustomTextureFormat::Bc7Unorm
            | CustomTextureFormat::Bc7UnormSrgb => Some(CustomCompressionFamily::Bc),
            CustomTextureFormat::Etc2Rgb8Unorm | CustomTextureFormat::Etc2Rgb8UnormSrgb
            | CustomTextureFormat::Etc2Rgba8Unorm
            | CustomTextureFormat::Etc2Rgba8UnormSrgb => Some(CustomCompressionFamily::EacEtc),
            CustomTextureFormat::Astc4x4Unorm | CustomTextureFormat::Astc4x4UnormSrgb
            | CustomTextureFormat::Astc5x5Unorm | CustomTextureFormat::Astc5x5UnormSrgb
            | CustomTextureFormat::Astc6x6Unorm | CustomTextureFormat::Astc6x6UnormSrgb
            | CustomTextureFormat::Astc8x8Unorm
            | CustomTextureFormat::Astc8x8UnormSrgb => Some(CustomCompressionFamily::Astc),
            CustomTextureFormat::PvrtcRgb2bppUnorm | CustomTextureFormat::PvrtcRgb2bppUnormSrgb
            | CustomTextureFormat::PvrtcRgba2bppUnorm | CustomTextureFormat::PvrtcRgba2bppUnormSrgb
            | CustomTextureFormat::PvrtcRgb4bppUnorm | CustomTextureFormat::PvrtcRgb4bppUnormSrgb
            | CustomTextureFormat::PvrtcRgba4bppUnorm
            | CustomTextureFormat::PvrtcRgba4bppUnormSrgb => Some(CustomCompressionFamily::Pvrtc),
            _ => None,
        }
    }
}

/// Whether a device with compression `support` samples `format`.
pub fn texture_format_supported(format: CustomTextureFormat, support: CustomCompressionSupport) -> (r: bool)
    ensures
        r == format_supported_with(format, support),
{
    match format.compression_family() {
        None => true,
        Some(CustomCompressionFamily::Bc) => support.bc,
        Some(CustomCompressionFamily::EacEtc) => support.eac_etc,
        Some(CustomCompressionFamily::Astc) => support.astc,
        Some(CustomCompressionFamily::Pvrtc) => support.pvrtc,
    }
}

/// Exactly the block-compressed formats belong to a compression family.
pub proof fn lemma_compression_family_iff_compressed(format: CustomTextureFormat)
    ensures
        compression_family_of(format) is Some <==> format_is_compressed(format),
{
}

/// Texture dimensions supported by custom draw.
#[derive(Debug, Clone, Copy, PartialEq, Eq, Structural)]
pub enum CustomTextureDimension {
    /// 2D texture.
    D2,
    /// 2D texture array.
    D2Array {
        /// Number of array layers.
        layers: u32,
    },
    /// Cube texture (6 layers; width and height must match).
    Cube,
}

impl Default for CustomTextureDimension {
    fn default() -> (r: Self)
        ensures
            r == CustomTextureDimension::D2,
    {
        CustomTextureDimension::D2
    }
}

/// Number of array layers of a dimension.
pub open spec fn dimension_layers(dimension: CustomTextureDimension) -> u32 {
    match dimension {
        CustomTextureDimension::D2 => 1,
        CustomTextureDimension::D2Array { layers } => layers,
        CustomTextureDimension::Cube => 6,
    }
}

impl CustomTextureDimension {
    /// Number of array layers for this dimension.
    pub fn array_layers(self) -> (r: u32)
        ensures
            r == dimension_layers(self),
    {
        match self {
            CustomTextureDimension::D2 => 1,
            CustomTextureDimension::D2Array { layers } => layers,
            CustomTextureDimension::Cube => 6,
        }
    }

    /// Returns true if this dimension is a cube texture.
    pub fn is_cube(self) -> (r: bool)
        ensures
            r == (self is Cube),
    {
        matches!(self, CustomTextureDimension::Cube)
    }

    /// Returns true if this dimension includes multiple array layers.
    pub fn is_array(self) -> (r: bool)
        ensures
            r == (self is D2Array || self is Cube),
    {
        match self {
            CustomTextureDimension::D2 => false,
            _ => true,
        }
    }
}

/// Usage flags for custom textures: bit 0 sampled, bit 1 storage.
#[derive(Debug, Clone, Copy, PartialEq, Eq, Hash, Structural)]
pub struct CustomTextureUsage {
    bits: u8,
}

/// Whether the sampled bit is set.
pub open spec fn usage_sampled(usage: CustomTextureUsage) -> bool {
    usage.spec_bits() % 2 == 1
}

/// Whether the storage bit is set.
pub open spec fn usage_storage(usage: CustomTextureUsage) -> bool {
    (usage.spec_bits() / 2) % 2 == 1
}

impl CustomTextureUsage {
    /// The raw flag bits.
    pub closed spec fn spec_bits(self) -> u8 {
        self.bits
    }

    /// No flags.
    pub fn empty() -> (r: Self)
        ensures
            r.spec_bits() == 0,
    {
        CustomTextureUsage { bits: 0 }
    }

    /// Texture can be sampled in shaders.
    pub fn sampled() -> (r: Self)
        ensures
            r.spec_bits() == 1,
    {
        CustomTextureUsage { bits: 1 }
    }

    /// Texture can be written via storage texture bindings.
    pub fn storage() -> (r: Self)
        ensures
            r.spec_bits() == 2,
    {
        CustomTextureUsage { bits: 2 }
    }

    /// The flags of `bits` that this type knows, others dropped.
    pub fn from_bits_truncate(bits: u8) -> (r: Self)
        ensures
            r.spec_bits() == bits % 4,
    {
        CustomTextureUsage { bits: bits % 4 }
    }

    /// The raw flag bits.
    pub fn bits(&self) -> (r: u8)
        ensures
            r == self.spec_bits(),
    {
        self.bits
    }

    /// Both sets of flags together.
    pub fn union(self, other: Self) -> (r: Self)
        requires
            self.spec_bits() < 4,
            other.spec_bits() < 4,
        ensures
            usage_sampled(r) == (usage_sampled(self) || usage_sampled(other)),
            usage_storage(r) == (usage_storage(self) || usage_storage(other)),
            r.spec_bits() < 4,
    {
        let s = self.bits;
        let o = other.bits;
        let sampled: u8 = if s % 2 == 1 || o % 2 == 1 { 1 } else { 0 };
        let storage: u8 = if (s / 2) % 2 == 1 || (o / 2) % 2 == 1 { 2 } else { 0 };
        CustomTextureUsage { bits: sampled + storage }
    }

    /// Whether the sampled flag is set.
    pub fn is_sampled(&self) -> (r: bool)
        ensures
            r == usage_sampled(*self),
    {
        self.bits % 2 == 1
    }

    /// Whether the storage flag is set.
    pub fn is_storage(&self) -> (r: bool)
        ensures
            r == usage_storage(*self),
    {
        (self.bits / 2) % 2 == 1
    }
}

impl Default for CustomTextureUsage {
    fn default() -> (r: Self)
        ensures
            r.spec_bits() == 1,
    {
        CustomTextureUsage { bits: 1 }
    }
}

/// Texture description for custom GPU rendering.
#[derive(Debug, Clone)]
pub struct CustomTextureDesc {
    /// Debug name for the texture.
    pub name: String,
    /// Texture dimension.
    pub dimension: CustomTextureDimension,
    /// Texture width in pixels.
    pub width: u32,
    /// Texture height in pixels.
    pub height: u32,
    /// Texture format.
    pub format: CustomTextureFormat,
    /// Texture usage flags.
    pub usage: CustomTextureUsage,
    /// Initial texture contents for each mip level (level 0 first).
    ///
    /// For array or cube textures, each mip level contains all layers packed
    /// sequentially. For block-compressed formats, each mip level is packed by
    /// block in row-major order.
    pub data: Vec<std::sync::Arc<[u8]>>,
}

/// Texture update for a specific mip level.
#[derive(Debug, Clone)]
pub struct CustomTextureUpdate {
    /// Mip level to update (0 = base level).
    pub level: u32,
    /// Texture data for the mip level, all layers packed sequentially.
    pub data: std::sync::Arc<[u8]>,
    /// Row stride in bytes for the mip level; tightly packed when unset.
    pub bytes_per_row: Option<u32>,
}

impl CustomTextureUpdate {
    /// Convenience for updating the base mip level.
    pub fn base_level(data: std::sync::Arc<[u8]>) -> (r: Self)
        ensures
            r.level == 0,
            r.data == data,
            r.bytes_per_row is None,
    {
        CustomTextureUpdate { level: 0, data, bytes_per_row: None }
    }
}

/// Texture update that sources data from a custom buffer.
#[derive(Debug, Clone)]
pub struct CustomTextureBufferUpdate {
    /// Mip level to update (0 = base level).
    pub level: u32,
    /// Buffer source that holds the texture data.
    pub buffer: CustomBufferSource,
    /// Row stride in bytes for the mip level; tightly packed when unset.
    pub bytes_per_row: Option<u32>,
}

impl CustomTextureBufferUpdate {
    /// Convenience for updating the base mip level.
    pub fn base_level(buffer: CustomBufferSource) -> (r: Self)
        ensures
            r.level == 0,
            r.buffer == buffer,
            r.bytes_per_row is None,
    {
        CustomTextureBufferUpdate { level: 0, buffer, bytes_per_row: None }
    }
}

/// Sampler filter modes supported by custom draw.
#[derive(Debug, Clone, Copy, PartialEq, Eq, Structural)]
pub enum CustomFilterMode {
    /// Nearest sampling.
    Nearest,
    /// Linear sampling.
    Linear,
}

/// Sampler address modes supported by custom draw.
#[derive(Debug, Clone, Copy, PartialEq, Eq, Structural)]
pub enum CustomAddressMode {
    /// Clamp to edge.
    ClampToEdge,
    /// Repeat.
    Repeat,
}

/// Sampler description for custom GPU rendering.
#[derive(Debug, Clone)]
pub struct CustomSamplerDesc {
    /// Debug name for the sampler.
    pub name: String,
    /// Minification filter.
    pub min_filter: CustomFilterMode,
    /// Magnification filter.
    pub mag_filter: CustomFilterMode,
    /// Mipmap filter.
    pub mipmap_filter: CustomFilterMode,
    /// Address modes for U/V/W.
    pub address_modes: [CustomAddressMode; 3],
}

} // verus!
