//! Data model of GPU resources: formats, extents, creation descriptors, and
//! the ownership contracts that resources and their views obey.
//!
//! The requested byte size of a texture is a pure function of format, extent
//! and mip count; it involves no device query.

use vstd::prelude::*;

use crate::error::ResourceError;
use crate::texture::{TextureHandle, TextureStore};

verus! {

/// A two-dimensional pixel extent, as a window or surface reports it.
#[derive(Clone, Copy, Debug, PartialEq, Eq, Structural)]
pub struct Extent2d {
    pub width: u32,
    pub height: u32,
}

/// A three-dimensional texture extent; the third axis counts depth slices or
/// array layers.
#[derive(Clone, Copy, Debug, PartialEq, Eq, Structural)]
pub struct Extent3d {
    pub width: u32,
    pub height: u32,
    pub depth_or_array_layers: u32,
}

/// The color formats this core works with. Each `*Srgb` variant aliases the
/// physical layout of its plain counterpart with gamma-corrected sampling.
#[derive(Clone, Copy, Debug, PartialEq, Eq, Structural)]
pub enum TextureFormat {
    R8Unorm,
    Rg8Unorm,
    Rgba8Unorm,
    Rgba8UnormSrgb,
    Bgra8Unorm,
    Bgra8UnormSrgb,
    Rgba32Uint,
}

/// Bytes taken by one texel of the format.
pub open spec fn spec_bytes_per_texel(f: TextureFormat) -> nat {
    match f {
        TextureFormat::R8Unorm => 1,
        TextureFormat::Rg8Unorm => 2,
        TextureFormat::Rgba8Unorm => 4,
        TextureFormat::Rgba8UnormSrgb => 4,
        TextureFormat::Bgra8Unorm => 4,
        TextureFormat::Bgra8UnormSrgb => 4,
        TextureFormat::Rgba32Uint => 16,
    }
}

/// The sRGB-aliased variant of a format, if one exists; a format that has no
/// sRGB alias (or already is one) is returned unchanged.
pub open spec fn spec_add_srgb_suffix(f: TextureFormat) -> TextureFormat {
    match f {
        TextureFormat::Rgba8Unorm => TextureFormat::Rgba8UnormSrgb,
        TextureFormat::Bgra8Unorm => TextureFormat::Bgra8UnormSrgb,
        _ => f,
    }
}

impl TextureFormat {
    /// Bytes taken by one texel of the format.
    pub fn bytes_per_texel(self) -> (n: u64)
        ensures
            n as nat == spec_bytes_per_texel(self),
            1 <= n <= 16,
    {
        match self {
            TextureFormat::R8Unorm => 1,
            TextureFormat::Rg8Unorm => 2,
            TextureFormat::Rgba8Unorm => 4,
            TextureFormat::Rgba8UnormSrgb => 4,
            TextureFormat::Bgra8Unorm => 4,
            TextureFormat::Bgra8UnormSrgb => 4,
            TextureFormat::Rgba32Uint => 16,
        }
    }

    /// The sRGB-aliased variant of the format, used so that consumers may
    /// request a gamma-corrected view of the same physical format.
    pub fn add_srgb_suffix(self) -> (r: TextureFormat)
        ensures
            r == spec_add_srgb_suffix(self),
    {
        match self {
            TextureFormat::Rgba8Unorm => TextureFormat::Rgba8UnormSrgb,
            TextureFormat::Bgra8Unorm => TextureFormat::Bgra8UnormSrgb,
            _ => self,
        }
    }
}

/// Resource usage flags, a bitset: none, allow-unordered-access,
/// render-target.
#[derive(Clone, Copy, Debug, PartialEq, Eq, Structural)]
pub struct ResourceFlag {
    pub bits: u32,
}

pub const RESOURCE_FLAG_NONE: u32 = 0x00000000;
pub const RESOURCE_FLAG_ALLOW_UAV: u32 = 0x00000001;
pub const RESOURCE_FLAG_RENDER_TARGET: u32 = 0x00000002;

impl ResourceFlag {
    /// The empty flag set.
    pub fn none() -> (r: ResourceFlag)
        ensures
            r.bits == RESOURCE_FLAG_NONE,
    {
        ResourceFlag { bits: RESOURCE_FLAG_NONE }
    }

    /// The allow-unordered-access flag.
    pub fn allow_uav() -> (r: ResourceFlag)
        ensures
            r.bits == RESOURCE_FLAG_ALLOW_UAV,
    {
        ResourceFlag { bits: RESOURCE_FLAG_ALLOW_UAV }
    }

    /// The render-target flag.
    pub fn render_target() -> (r: ResourceFlag)
        ensures
            r.bits == RESOURCE_FLAG_RENDER_TARGET,
    {
        ResourceFlag { bits: RESOURCE_FLAG_RENDER_TARGET }
    }

    /// The union of two flag sets.
    pub fn union(self, other: ResourceFlag) -> (r: ResourceFlag)
        ensures
            r.bits == self.bits | other.bits,
    {
        ResourceFlag { bits: self.bits | other.bits }
    }

    /// Whether every flag of `other` is also set in `self`.
    pub fn contains(self, other: ResourceFlag) -> (r: bool)
        ensures
            r == (self.bits & other.bits == other.bits),
    {
        self.bits & other.bits == other.bits
    }
}

impl Default for ResourceFlag {
    /// The default flag set is empty.
    fn default() -> (r: ResourceFlag)
        ensures
            r.bits == RESOURCE_FLAG_NONE,
    {
        ResourceFlag { bits: RESOURCE_FLAG_NONE }
    }
}

/// Size and flag bookkeeping common to every resource kind.
#[derive(Clone, Copy, Debug, PartialEq, Eq, Structural)]
pub struct ResourceInfo {
    pub flags: ResourceFlag,
    /// Bytes the creator asked for: a pure function of the create-info.
    pub request_size: u64,
    /// Bytes the device actually allocated; reported lazily, zero until known.
    pub allocation_size: u64,
}

/// Descriptor of a created texture.
#[derive(Clone, Copy, Debug, PartialEq, Eq, Structural)]
pub struct TextureInfo {
    pub base_info: ResourceInfo,
    pub extent: Extent3d,
    pub format: TextureFormat,
}

/// Everything needed to create a texture.
#[derive(Clone, Copy, Debug, PartialEq, Eq, Structural)]
pub struct TextureCreateInfo {
    pub extent: Extent3d,
    pub format: TextureFormat,
    pub num_mips: u32,
}

/// A sub-range of a texture that a view observes.
#[derive(Clone, Copy, Debug, PartialEq, Eq, Structural)]
pub struct TextureViewCreateInfo {
    pub base_mip: u32,
    pub num_mips: u32,
    pub base_slice: u32,
    pub num_slices: u32,
}

/// One mip level down: a dimension halves, but never below one texel
/// (a zero dimension stays zero, the extent is degenerate).
pub open spec fn half_dim(d: nat) -> nat {
    if d <= 1 {
        d
    } else {
        d / 2
    }
}

/// Bytes of a single mip level of the given dimensions.
pub open spec fn level_byte_size(f: TextureFormat, w: nat, h: nat, layers: nat) -> nat {
    w * h * layers * spec_bytes_per_texel(f)
}

/// Bytes of a mip chain of `levels` levels, the first of dimensions
/// `w` x `h` x `layers`, each further level half as wide and half as tall.
pub open spec fn mip_chain_byte_size(
    f: TextureFormat,
    w: nat,
    h: nat,
    layers: nat,
    levels: nat,
) -> nat
    decreases levels,
{
    if levels == 0 {
        0
    } else {
        level_byte_size(f, w, h, layers) + mip_chain_byte_size(
            f,
            half_dim(w),
            half_dim(h),
            layers,
            (levels - 1) as nat,
        )
    }
}

/// The requested byte size of a texture: a pure, deterministic function of
/// format, extent and mip count alone.
pub open spec fn texture_request_size(info: TextureCreateInfo) -> nat {
    mip_chain_byte_size(
        info.format,
        info.extent.width as nat,
        info.extent.height as nat,
        info.extent.depth_or_array_layers as nat,
        info.num_mips as nat,
    )
}

impl TextureCreateInfo {
    /// The requested byte size, or `None` where it does not fit in 64 bits.
    pub fn request_size_checked(&self) -> (r: Option<u64>)
        ensures
            match r {
                Some(n) => n as nat == texture_request_size(*self),
                None => texture_request_size(*self) > u64::MAX,
            },
    {
        let bpt: u64 = self.format.bytes_per_texel();
        let layers: u64 = self.extent.depth_or_array_layers as u64;
        let mut w: u32 = self.extent.width;
        let mut h: u32 = self.extent.height;
        let mut acc: u64 = 0;
        let mut level: u32 = 0;
        while level < self.num_mips
            invariant
                level <= self.num_mips,
                bpt as nat == spec_bytes_per_texel(self.format),
                layers == self.extent.depth_or_array_layers,
                acc as nat + mip_chain_byte_size(
                    self.format,
                    w as nat,
                    h as nat,
                    layers as nat,
                    (self.num_mips - level) as nat,
                ) == texture_request_size(*self),
            decreases self.num_mips - level,
        {
            proof {
                assert((w as nat) * (h as nat) <= 0xFFFF_FFFF * 0xFFFF_FFFF) by (nonlinear_arith)
                    requires
                        w <= 0xFFFF_FFFF,
                        h <= 0xFFFF_FFFF,
                ;
            }
            let wh: u64 = (w as u64) * (h as u64);
            let level_size: u64 = match wh.checked_mul(layers) {
                Some(p) => match p.checked_mul(bpt) {
                    Some(q) => q,
                    None => {
                        return None;
                    },
                },
                None => {
                    proof {
                        lemma_level_at_most_chain(
                            self.format,
                            w as nat,
                            h as nat,
                            layers as nat,
                            (self.num_mips - level) as nat,
                        );
                        assert(level_byte_size(self.format, w as nat, h as nat, layers as nat)
                            >= (w as nat) * (h as nat) * (layers as nat)) by (nonlinear_arith)
                            requires
                                spec_bytes_per_texel(self.format) >= 1,
                        ;
                    }
                    return None;
                },
            };
            proof {
                lemma_level_at_most_chain(
                    self.format,
                    w as nat,
                    h as nat,
                    layers as nat,
                    (self.num_mips - level) as nat,
                );
            }
            let next_acc: u64 = match acc.checked_add(level_size) {
                Some(s) => s,
                None => {
                    return None;
                },
            };
            acc = next_acc;
            w = if w <= 1 {
                w
            } else {
                w / 2
            };
            h = if h <= 1 {
                h
            } else {
                h / 2
            };
            level = level + 1;
        }
        Some(acc)
    }

    /// The requested byte size of the texture, in bytes.
    ///
    /// Pure and deterministic: no device interaction, the result depends on
    /// format, extent and mip count alone.
    pub fn request_size(&self) -> (r: u64)
        requires
            texture_request_size(*self) <= u64::MAX,
        ensures
            r as nat == texture_request_size(*self),
    {
        match self.request_size_checked() {
            Some(n) => n,
            None => {
                proof {
                    assert(false);
                }
                0
            },
        }
    }
}

/// A mip chain is at least as large as its first level.
proof fn lemma_level_at_most_chain(f: TextureFormat, w: nat, h: nat, layers: nat, levels: nat)
    requires
        levels >= 1,
    ensures
        mip_chain_byte_size(f, w, h, layers, levels) >= level_byte_size(f, w, h, layers),
{
}

/// The requested byte size is a function of format, extent and mip count and
/// of nothing else: two create-infos that agree on those three agree on the
/// size.
pub proof fn lemma_request_size_deterministic(a: TextureCreateInfo, b: TextureCreateInfo)
    requires
        a.format == b.format,
        a.extent == b.extent,
        a.num_mips == b.num_mips,
    ensures
        texture_request_size(a) == texture_request_size(b),
{
}

/// Exclusive owner of GPU memory: reports its flags and sizes.
pub trait RenderResource {
    /// The flags the resource was created with.
    spec fn spec_resource_flag(&self) -> ResourceFlag;

    /// The byte size the creator requested.
    spec fn spec_request_size(&self) -> u64;

    /// The byte size the device allocated.
    spec fn spec_allocation_size(&self) -> u64;

    fn resource_flag(&self) -> (r: ResourceFlag)
        ensures
            r == self.spec_resource_flag(),
    ;

    fn request_size(&self) -> (r: u64)
        ensures
            r == self.spec_request_size(),
    ;

    fn allocation_size(&self) -> (r: u64)
        ensures
            r == self.spec_allocation_size(),
    ;
}

/// Non-owning observer of a resource: every access to the parent goes through
/// a fallible resolution, which fails with `Orphan` once the resource is
/// destroyed, and never hands out a stale handle.
pub trait RenderResourceView {
    /// The handle of the resource this view was created from.
    spec fn spec_parent(&self) -> TextureHandle;

    fn resource(&self, store: &TextureStore) -> (r: Result<TextureHandle, ResourceError>)
        ensures
            store.spec_live(self.spec_parent()) ==> r == Ok::<TextureHandle, ResourceError>(
                self.spec_parent(),
            ),
            !store.spec_live(self.spec_parent()) ==> r == Err::<TextureHandle, ResourceError>(
                ResourceError::Orphan,
            ),
    ;
}

} // verus!
