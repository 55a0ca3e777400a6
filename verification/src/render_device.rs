//! The device context: the GPU instance, the adapter chosen from it, the
//! logical device created from that adapter, and the device's submission
//! queue, each held by identifier.
//!
//! Acquisition of the four underlying objects is asynchronous platform work
//! and happens outside this library; its outcome is handed to
//! [`crate::engine::Engine::new`]. A `RenderDevice` is created once, is
//! immutable thereafter, and stands for a mutually consistent quadruple: the
//! device was created from the adapter, and the queue belongs to the device.
//! That consistency is the creator's obligation; the identifiers are recorded
//! together here and never change.

use vstd::prelude::*;

verus! {

/// Identifiers of the GPU instance, adapter, logical device and queue.
#[derive(Clone, Copy, Debug, PartialEq, Eq, Structural)]
pub struct RenderDevice {
    pub instance: u64,
    pub adapter: u64,
    pub device: u64,
    pub queue: u64,
}

impl RenderDevice {
    /// Records an acquired instance/adapter/device/queue quadruple.
    pub fn new(instance: u64, adapter: u64, device: u64, queue: u64) -> (r: RenderDevice)
        ensures
            r == (RenderDevice { instance, adapter, device, queue }),
    {
        RenderDevice { instance, adapter, device, queue }
    }

    /// The GPU instance.
    pub fn instance(&self) -> (r: u64)
        ensures
            r == self.instance,
    {
        self.instance
    }

    /// The adapter chosen from the instance.
    pub fn adapter(&self) -> (r: u64)
        ensures
            r == self.adapter,
    {
        self.adapter
    }

    /// The logical device created from the adapter.
    pub fn device(&self) -> (r: u64)
        ensures
            r == self.device,
    {
        self.device
    }

    /// The device's command-submission queue.
    pub fn command_queue(&self) -> (r: u64)
        ensures
            r == self.queue,
    {
        self.queue
    }
}

} // verus!
