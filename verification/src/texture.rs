//! Textures, their non-owning views, and the store that tracks ownership.
//!
//! Shared ownership is modeled by an explicit owner count per texture, held
//! in a handle table: a texture is created with one owner, further owners are
//! added with [`TextureStore::retain`] and dropped with
//! [`TextureStore::release`], and the texture is destroyed the moment its
//! last owner is released. Views store the handle only; they never keep the
//! texture alive, and resolve it through a fallible lookup that reports an
//! orphaned view explicitly instead of handing out stale state.
//!
//! Handle slots are never reused, so a handle can never accidentally resolve
//! to a texture created later.

use vstd::prelude::*;

use crate::error::ResourceError;
use crate::render_resource::{
    RenderResource, RenderResourceView, ResourceFlag, ResourceInfo, TextureCreateInfo, TextureInfo,
    TextureViewCreateInfo, texture_request_size, RESOURCE_FLAG_NONE,
};

verus! {

/// A generation-free handle into a [`TextureStore`]; slots are never reused.
#[derive(Clone, Copy, Debug, PartialEq, Eq, Structural)]
pub struct TextureHandle {
    pub index: usize,
}

/// A texture: descriptor bookkeeping plus the identifier of the GPU-side
/// object whose lifetime is tied 1:1 to this entry.
#[derive(Clone, Copy, Debug, PartialEq, Eq, Structural)]
pub struct Texture {
    pub info: TextureInfo,
    /// Identifier of the backing GPU texture object.
    pub texture: u64,
}

/// One slot of the handle table. An owner count of zero means the texture
/// has been destroyed; the descriptor is kept only so that the slot index
/// stays occupied and is never handed out again.
#[derive(Clone, Copy, Debug, PartialEq, Eq, Structural)]
pub struct TextureSlot {
    /// How many owning references are alive; zero once destroyed.
    pub owners: u64,
    pub texture: Texture,
}

/// The handle table that owns every texture and tracks its owner count.
#[derive(Clone, Debug)]
pub struct TextureStore {
    pub slots: Vec<TextureSlot>,
    pub next_gpu_id: u64,
}

impl TextureStore {
    /// Whether the handle names a slot of the table at all.
    pub open spec fn spec_in_bounds(&self, h: TextureHandle) -> bool {
        h.index < self.slots@.len()
    }

    /// Whether the handle's texture still has at least one owner.
    pub open spec fn spec_live(&self, h: TextureHandle) -> bool {
        self.spec_in_bounds(h) && self.slots@[h.index as int].owners > 0
    }

    /// The owner count behind the handle.
    pub open spec fn spec_owners(&self, h: TextureHandle) -> u64
        recommends
            self.spec_in_bounds(h),
    {
        self.slots@[h.index as int].owners
    }

    /// The texture behind the handle.
    pub open spec fn spec_texture(&self, h: TextureHandle) -> Texture
        recommends
            self.spec_in_bounds(h),
    {
        self.slots@[h.index as int].texture
    }

    /// An empty store.
    pub fn new() -> (r: TextureStore)
        ensures
            r.slots@.len() == 0,
            r.next_gpu_id == 0,
    {
        TextureStore { slots: Vec::new(), next_gpu_id: 0 }
    }

    /// Whether the handle's texture is live, as an executable query.
    pub fn live(&self, h: TextureHandle) -> (r: bool)
        ensures
            r == self.spec_live(h),
    {
        h.index < self.slots.len() && self.slots[h.index].owners > 0
    }

    /// The descriptor of the texture behind the handle, or `Orphan` once the
    /// texture has been destroyed.
    pub fn texture_info(&self, h: TextureHandle) -> (r: Result<TextureInfo, ResourceError>)
        ensures
            self.spec_live(h) ==> r == Ok::<TextureInfo, ResourceError>(
                self.spec_texture(h).info,
            ),
            !self.spec_live(h) ==> r == Err::<TextureInfo, ResourceError>(ResourceError::Orphan),
    {
        if h.index < self.slots.len() && self.slots[h.index].owners > 0 {
            Ok(self.slots[h.index].texture.info)
        } else {
            Err(ResourceError::Orphan)
        }
    }

    /// Adds an owning reference to a live texture.
    pub fn retain(&mut self, h: TextureHandle)
        requires
            old(self).spec_live(h),
            old(self).spec_owners(h) < u64::MAX,
        ensures
            final(self).slots@ == old(self).slots@.update(
                h.index as int,
                TextureSlot {
                    owners: (old(self).spec_owners(h) + 1) as u64,
                    texture: old(self).spec_texture(h),
                },
            ),
            final(self).next_gpu_id == old(self).next_gpu_id,
    {
        let slot = self.slots[h.index];
        self.slots.set(h.index, TextureSlot { owners: slot.owners + 1, texture: slot.texture });
    }

    /// Drops an owning reference; the last drop destroys the texture, and
    /// every view of it is orphaned from that point on.
    pub fn release(&mut self, h: TextureHandle)
        requires
            old(self).spec_live(h),
        ensures
            final(self).slots@ == old(self).slots@.update(
                h.index as int,
                TextureSlot {
                    owners: (old(self).spec_owners(h) - 1) as u64,
                    texture: old(self).spec_texture(h),
                },
            ),
            final(self).next_gpu_id == old(self).next_gpu_id,
            final(self).spec_live(h) <==> old(self).spec_owners(h) > 1,
    {
        let slot = self.slots[h.index];
        self.slots.set(h.index, TextureSlot { owners: slot.owners - 1, texture: slot.texture });
    }
}

/// A non-owning view of a texture: holds the handle and the observed
/// sub-range, never the texture itself.
#[derive(Clone, Copy, Debug, PartialEq, Eq, Structural)]
pub struct TextureView {
    /// Handle of the texture this view was created from; non-owning.
    pub parent: TextureHandle,
    /// Identifier of the GPU-side view object.
    pub view: u64,
    /// The observed mip and slice sub-range.
    pub info: TextureViewCreateInfo,
    /// The format the view reads the texture with.
    pub format: crate::render_resource::TextureFormat,
}

impl Texture {
    /// Creates a texture in the store with a single owning reference.
    ///
    /// The requested byte size is computed here, purely from the create-info;
    /// the allocated byte size is reported lazily by the device and starts at
    /// zero, consistent with a deferred-error allocation model.
    pub fn new(store: &mut TextureStore, create_info: TextureCreateInfo) -> (h: TextureHandle)
        requires
            texture_request_size(create_info) <= u64::MAX,
            old(store).slots@.len() < usize::MAX,
            old(store).next_gpu_id < u64::MAX,
        ensures
            h.index == old(store).slots@.len(),
            final(store).slots@ == old(store).slots@.push(
                TextureSlot {
                    owners: 1,
                    texture: Texture {
                        info: TextureInfo {
                            base_info: ResourceInfo {
                                flags: ResourceFlag { bits: RESOURCE_FLAG_NONE },
                                request_size: texture_request_size(create_info) as u64,
                                allocation_size: 0,
                            },
                            extent: create_info.extent,
                            format: create_info.format,
                        },
                        texture: old(store).next_gpu_id,
                    },
                },
            ),
            final(store).next_gpu_id == old(store).next_gpu_id + 1,
            final(store).spec_live(h),
    {
        let request_size: u64 = create_info.request_size();
        let handle = TextureHandle { index: store.slots.len() };
        let texture = Texture {
            info: TextureInfo {
                base_info: ResourceInfo {
                    flags: ResourceFlag::none(),
                    request_size,
                    allocation_size: 0,
                },
                extent: create_info.extent,
                format: create_info.format,
            },
            texture: store.next_gpu_id,
        };
        store.slots.push(TextureSlot { owners: 1, texture });
        store.next_gpu_id = store.next_gpu_id + 1;
        handle
    }

    /// Creates a non-owning view of a live texture, observing the given
    /// sub-range with the texture's own format.
    ///
    /// Fails with `Orphan` when the texture behind the handle has already
    /// been destroyed: a view can only be created from a live resource.
    pub fn create_view(
        store: &TextureStore,
        h: TextureHandle,
        view_info: TextureViewCreateInfo,
        view_id: u64,
    ) -> (r: Result<TextureView, ResourceError>)
        ensures
            store.spec_live(h) ==> r == Ok::<TextureView, ResourceError>(
                TextureView {
                    parent: h,
                    view: view_id,
                    info: view_info,
                    format: store.spec_texture(h).info.format,
                },
            ),
            !store.spec_live(h) ==> r == Err::<TextureView, ResourceError>(ResourceError::Orphan),
    {
        if h.index < store.slots.len() && store.slots[h.index].owners > 0 {
            Ok(
                TextureView {
                    parent: h,
                    view: view_id,
                    info: view_info,
                    format: store.slots[h.index].texture.info.format,
                },
            )
        } else {
            Err(ResourceError::Orphan)
        }
    }
}

impl RenderResource for Texture {
    open spec fn spec_resource_flag(&self) -> ResourceFlag {
        self.info.base_info.flags
    }

    open spec fn spec_request_size(&self) -> u64 {
        self.info.base_info.request_size
    }

    open spec fn spec_allocation_size(&self) -> u64 {
        self.info.base_info.allocation_size
    }

    fn resource_flag(&self) -> (r: ResourceFlag) {
        self.info.base_info.flags
    }

    fn request_size(&self) -> (r: u64) {
        self.info.base_info.request_size
    }

    fn allocation_size(&self) -> (r: u64) {
        self.info.base_info.allocation_size
    }
}

impl RenderResourceView for TextureView {
    open spec fn spec_parent(&self) -> TextureHandle {
        self.parent
    }

    fn resource(&self, store: &TextureStore) -> (r: Result<TextureHandle, ResourceError>) {
        if self.parent.index < store.slots.len() && store.slots[self.parent.index].owners > 0 {
            Ok(self.parent)
        } else {
            Err(ResourceError::Orphan)
        }
    }
}

/// What resolving a view through a store yields: the parent handle while the
/// texture is live, `Orphan` once it is not. [`RenderResourceView::resource`]
/// returns exactly this.
pub open spec fn spec_resolve(view: TextureView, store: TextureStore) -> Result<
    TextureHandle,
    ResourceError,
> {
    if store.spec_live(view.parent) {
        Ok(view.parent)
    } else {
        Err(ResourceError::Orphan)
    }
}

/// Once the last owning reference of a texture is dropped, every view of it
/// resolves to `Orphan`, never to a stale handle.
///
/// `before` and `after` are the store around the final [`TextureStore::release`]
/// of the texture, related as that call's contract states.
pub proof fn lemma_orphan_after_last_release(
    before: TextureStore,
    after: TextureStore,
    h: TextureHandle,
    view: TextureView,
)
    requires
        view.parent == h,
        before.spec_live(h),
        before.spec_owners(h) == 1,
        after.slots@ == before.slots@.update(
            h.index as int,
            TextureSlot { owners: 0, texture: before.spec_texture(h) },
        ),
    ensures
        !after.spec_live(h),
        spec_resolve(view, after) == Err::<TextureHandle, ResourceError>(ResourceError::Orphan),
{
}

} // verus!
