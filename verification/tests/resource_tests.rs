use render_core::error::ResourceError;
use render_core::render_resource::{
    Extent3d, RenderResource, RenderResourceView, ResourceFlag, TextureCreateInfo, TextureFormat,
    TextureViewCreateInfo, RESOURCE_FLAG_ALLOW_UAV, RESOURCE_FLAG_NONE, RESOURCE_FLAG_RENDER_TARGET,
};
use render_core::texture::{Texture, TextureStore};

fn info(width: u32, height: u32, layers: u32, format: TextureFormat, num_mips: u32) -> TextureCreateInfo {
    TextureCreateInfo {
        extent: Extent3d { width, height, depth_or_array_layers: layers },
        format,
        num_mips,
    }
}

#[test]
fn request_size_single_level() {
    // 4 x 4 x 1 texels at 4 bytes each.
    let ci = info(4, 4, 1, TextureFormat::Rgba8Unorm, 1);
    assert_eq!(ci.request_size(), 64);
}

#[test]
fn request_size_mip_chain() {
    // Levels: 4x4 (64) + 2x2 (16) + 1x1 (4) at 4 bytes per texel.
    let ci = info(4, 4, 1, TextureFormat::Rgba8Unorm, 3);
    assert_eq!(ci.request_size(), 84);
}

#[test]
fn request_size_mip_chain_clamps_at_one_texel() {
    // Levels: 2x1 (2) + 1x1 (1) + 1x1 (1) at 1 byte per texel.
    let ci = info(2, 1, 1, TextureFormat::R8Unorm, 3);
    assert_eq!(ci.request_size(), 4);
}

#[test]
fn request_size_counts_layers() {
    // 8 x 2 x 6 texels at 2 bytes each.
    let ci = info(8, 2, 6, TextureFormat::Rg8Unorm, 1);
    assert_eq!(ci.request_size(), 192);
}

#[test]
fn request_size_zero_mips_is_zero() {
    let ci = info(1024, 1024, 1, TextureFormat::Rgba32Uint, 0);
    assert_eq!(ci.request_size(), 0);
}

#[test]
fn request_size_degenerate_extent_is_zero() {
    let ci = info(0, 512, 1, TextureFormat::Rgba8Unorm, 2);
    assert_eq!(ci.request_size(), 0);
}

#[test]
fn request_size_is_deterministic() {
    let a = info(33, 17, 4, TextureFormat::Bgra8UnormSrgb, 5);
    let b = info(33, 17, 4, TextureFormat::Bgra8UnormSrgb, 5);
    assert_eq!(a.request_size(), b.request_size());
}

#[test]
fn request_size_checked_reports_overflow() {
    let ci = info(u32::MAX, u32::MAX, u32::MAX, TextureFormat::Rgba32Uint, 1);
    assert_eq!(ci.request_size_checked(), None);
}

#[test]
fn request_size_checked_agrees_when_it_fits() {
    let ci = info(256, 256, 1, TextureFormat::Rgba8Unorm, 1);
    assert_eq!(ci.request_size_checked(), Some(262144));
}

#[test]
fn bytes_per_texel_values() {
    assert_eq!(TextureFormat::R8Unorm.bytes_per_texel(), 1);
    assert_eq!(TextureFormat::Rg8Unorm.bytes_per_texel(), 2);
    assert_eq!(TextureFormat::Rgba8Unorm.bytes_per_texel(), 4);
    assert_eq!(TextureFormat::Rgba8UnormSrgb.bytes_per_texel(), 4);
    assert_eq!(TextureFormat::Bgra8Unorm.bytes_per_texel(), 4);
    assert_eq!(TextureFormat::Bgra8UnormSrgb.bytes_per_texel(), 4);
    assert_eq!(TextureFormat::Rgba32Uint.bytes_per_texel(), 16);
}

#[test]
fn add_srgb_suffix_maps_unorm_to_srgb() {
    assert_eq!(TextureFormat::Rgba8Unorm.add_srgb_suffix(), TextureFormat::Rgba8UnormSrgb);
    assert_eq!(TextureFormat::Bgra8Unorm.add_srgb_suffix(), TextureFormat::Bgra8UnormSrgb);
}

#[test]
fn add_srgb_suffix_leaves_others_unchanged() {
    assert_eq!(TextureFormat::Rgba8UnormSrgb.add_srgb_suffix(), TextureFormat::Rgba8UnormSrgb);
    assert_eq!(TextureFormat::R8Unorm.add_srgb_suffix(), TextureFormat::R8Unorm);
    assert_eq!(TextureFormat::Rgba32Uint.add_srgb_suffix(), TextureFormat::Rgba32Uint);
}

#[test]
fn resource_flag_bits() {
    assert_eq!(ResourceFlag::none().bits, RESOURCE_FLAG_NONE);
    assert_eq!(ResourceFlag::allow_uav().bits, RESOURCE_FLAG_ALLOW_UAV);
    assert_eq!(ResourceFlag::render_target().bits, RESOURCE_FLAG_RENDER_TARGET);
    assert_eq!(ResourceFlag::default().bits, RESOURCE_FLAG_NONE);
}

#[test]
fn resource_flag_union_and_contains() {
    let both = ResourceFlag::allow_uav().union(ResourceFlag::render_target());
    assert_eq!(both.bits, 3);
    assert!(both.contains(ResourceFlag::allow_uav()));
    assert!(both.contains(ResourceFlag::render_target()));
    assert!(!ResourceFlag::allow_uav().contains(ResourceFlag::render_target()));
    assert!(both.contains(ResourceFlag::none()));
}

#[test]
fn texture_new_records_descriptor() {
    let mut store = TextureStore::new();
    let ci = info(4, 4, 1, TextureFormat::Rgba8Unorm, 3);
    let h = Texture::new(&mut store, ci);
    assert!(store.live(h));
    let ti = store.texture_info(h).unwrap();
    assert_eq!(ti.base_info.flags.bits, RESOURCE_FLAG_NONE);
    assert_eq!(ti.base_info.request_size, 84);
    assert_eq!(ti.base_info.allocation_size, 0);
    assert_eq!(ti.format, TextureFormat::Rgba8Unorm);
    assert_eq!(ti.extent.width, 4);
    assert_eq!(ti.extent.height, 4);
    assert_eq!(ti.extent.depth_or_array_layers, 1);
}

#[test]
fn texture_gpu_ids_are_distinct() {
    let mut store = TextureStore::new();
    let a = Texture::new(&mut store, info(1, 1, 1, TextureFormat::R8Unorm, 1));
    let b = Texture::new(&mut store, info(1, 1, 1, TextureFormat::R8Unorm, 1));
    assert_ne!(a, b);
    assert_ne!(store.slots[a.index].texture.texture, store.slots[b.index].texture.texture);
}

#[test]
fn create_view_on_live_texture() {
    let mut store = TextureStore::new();
    let h = Texture::new(&mut store, info(8, 8, 2, TextureFormat::Bgra8Unorm, 1));
    let vi = TextureViewCreateInfo { base_mip: 0, num_mips: 1, base_slice: 1, num_slices: 1 };
    let view = Texture::create_view(&store, h, vi, 99).unwrap();
    assert_eq!(view.parent, h);
    assert_eq!(view.view, 99);
    assert_eq!(view.info, vi);
    assert_eq!(view.format, TextureFormat::Bgra8Unorm);
}

#[test]
fn create_view_on_destroyed_texture_is_orphan() {
    let mut store = TextureStore::new();
    let h = Texture::new(&mut store, info(8, 8, 1, TextureFormat::Rgba8Unorm, 1));
    store.release(h);
    let vi = TextureViewCreateInfo { base_mip: 0, num_mips: 1, base_slice: 0, num_slices: 1 };
    assert_eq!(Texture::create_view(&store, h, vi, 0), Err(ResourceError::Orphan));
}

#[test]
fn view_resolves_while_any_owner_lives() {
    let mut store = TextureStore::new();
    let h = Texture::new(&mut store, info(2, 2, 1, TextureFormat::Rgba8Unorm, 1));
    let vi = TextureViewCreateInfo { base_mip: 0, num_mips: 1, base_slice: 0, num_slices: 1 };
    let view = Texture::create_view(&store, h, vi, 0).unwrap();
    store.retain(h);
    store.release(h);
    // One owner remains: resolution still succeeds.
    assert_eq!(view.resource(&store), Ok(h));
}

#[test]
fn view_orphaned_after_last_owner_dropped() {
    let mut store = TextureStore::new();
    let h = Texture::new(&mut store, info(2, 2, 1, TextureFormat::Rgba8Unorm, 1));
    let vi = TextureViewCreateInfo { base_mip: 0, num_mips: 1, base_slice: 0, num_slices: 1 };
    let view = Texture::create_view(&store, h, vi, 0).unwrap();
    store.retain(h);
    store.release(h);
    store.release(h);
    // The last owning reference is gone: never a stale handle.
    assert_eq!(view.resource(&store), Err(ResourceError::Orphan));
    assert_eq!(store.texture_info(h), Err(ResourceError::Orphan));
    assert!(!store.live(h));
}

#[test]
fn render_resource_trait_reports_info() {
    let mut store = TextureStore::new();
    let h = Texture::new(&mut store, info(4, 2, 1, TextureFormat::Rg8Unorm, 1));
    let texture = store.slots[h.index].texture;
    assert_eq!(texture.resource_flag().bits, RESOURCE_FLAG_NONE);
    assert_eq!(RenderResource::request_size(&texture), 16);
    assert_eq!(texture.allocation_size(), 0);
}
