//! The library's model of the windowing toolkit: which windows are alive and
//! what their live pixel extent is.
//!
//! Other components hold a window only as a [`WindowHandle`], a non-owning
//! back-reference: a handle never keeps a window alive, and every access goes
//! through a fallible resolution. Slots are never reused, so a handle can
//! never accidentally resolve to a window created later.

use vstd::prelude::*;

use crate::render_resource::Extent2d;

verus! {

/// A non-owning reference to a window; resolution through the host fails once
/// the window is destroyed.
#[derive(Clone, Copy, Debug, PartialEq, Eq, Structural)]
pub struct WindowHandle {
    pub index: usize,
}

/// One window of the host: whether it is still alive, and its live extent.
#[derive(Clone, Copy, Debug, PartialEq, Eq, Structural)]
pub struct WindowSlot {
    pub alive: bool,
    pub extent: Extent2d,
}

/// The set of windows the toolkit has created, and their live extents.
#[derive(Clone, Debug)]
pub struct WindowHost {
    pub slots: Vec<WindowSlot>,
}

/// Whether the handle names a slot of the given window table at all.
pub open spec fn win_in_bounds(ws: Seq<WindowSlot>, h: WindowHandle) -> bool {
    h.index < ws.len()
}

/// Whether the handle's window is still alive in the given window table.
pub open spec fn win_live(ws: Seq<WindowSlot>, h: WindowHandle) -> bool {
    win_in_bounds(ws, h) && ws[h.index as int].alive
}

/// The live extent of the handle's window in the given window table.
pub open spec fn win_extent(ws: Seq<WindowSlot>, h: WindowHandle) -> Extent2d
    recommends
        win_in_bounds(ws, h),
{
    ws[h.index as int].extent
}

impl WindowHost {
    /// Whether the handle names a slot of the host at all.
    pub open spec fn spec_in_bounds(&self, h: WindowHandle) -> bool {
        win_in_bounds(self.slots@, h)
    }

    /// Whether the handle's window is still alive.
    pub open spec fn spec_live(&self, h: WindowHandle) -> bool {
        win_live(self.slots@, h)
    }

    /// The live extent of the handle's window.
    pub open spec fn spec_extent(&self, h: WindowHandle) -> Extent2d
        recommends
            self.spec_in_bounds(h),
    {
        win_extent(self.slots@, h)
    }

    /// A host with no windows.
    pub fn new() -> (r: WindowHost)
        ensures
            r.slots@.len() == 0,
    {
        WindowHost { slots: Vec::new() }
    }

    /// Creates a window with the given initial extent.
    pub fn create_window(&mut self, extent: Extent2d) -> (h: WindowHandle)
        requires
            old(self).slots@.len() < usize::MAX,
        ensures
            h.index == old(self).slots@.len(),
            final(self).slots@ == old(self).slots@.push(WindowSlot { alive: true, extent }),
            final(self).spec_live(h),
            final(self).spec_extent(h) == extent,
    {
        let h = WindowHandle { index: self.slots.len() };
        self.slots.push(WindowSlot { alive: true, extent });
        h
    }

    /// Destroys a window; handles to it stop resolving from here on.
    pub fn destroy_window(&mut self, h: WindowHandle)
        requires
            old(self).spec_in_bounds(h),
        ensures
            final(self).slots@ == old(self).slots@.update(
                h.index as int,
                WindowSlot { alive: false, extent: old(self).spec_extent(h) },
            ),
            !final(self).spec_live(h),
    {
        let extent = self.slots[h.index].extent;
        self.slots.set(h.index, WindowSlot { alive: false, extent });
    }

    /// Records a new live extent for an alive window, as the toolkit reports
    /// it on resize.
    pub fn set_extent(&mut self, h: WindowHandle, extent: Extent2d)
        requires
            old(self).spec_live(h),
        ensures
            final(self).slots@ == old(self).slots@.update(
                h.index as int,
                WindowSlot { alive: true, extent },
            ),
            final(self).spec_live(h),
            final(self).spec_extent(h) == extent,
    {
        self.slots.set(h.index, WindowSlot { alive: true, extent });
    }

    /// Whether the handle's window is still alive, as an executable query.
    pub fn live(&self, h: WindowHandle) -> (r: bool)
        ensures
            r == self.spec_live(h),
    {
        h.index < self.slots.len() && self.slots[h.index].alive
    }

    /// Resolves the handle: the window's live extent while it is alive,
    /// `None` once it is destroyed. Never an unchecked dereference.
    pub fn resolve_extent(&self, h: WindowHandle) -> (r: Option<Extent2d>)
        ensures
            self.spec_live(h) ==> r == Some(self.spec_extent(h)),
            !self.spec_live(h) ==> r is None,
    {
        if h.index < self.slots.len() && self.slots[h.index].alive {
            Some(self.slots[h.index].extent)
        } else {
            None
        }
    }
}

} // verus!
