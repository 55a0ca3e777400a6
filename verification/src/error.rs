//! Error taxonomy of the rendering core.

use vstd::prelude::*;

verus! {

/// Failures of the device and presentation layer.
///
/// `Unavailable` carries a human-readable cause: acquisition failures of the
/// instance, adapter, logical device or surface are deliberately collapsed
/// into this one variant, because none of them is locally recoverable and the
/// caller cannot act on the distinction.
#[derive(Clone, Debug, PartialEq, Eq)]
pub enum DeviceError {
    /// The device or presentation engine ran out of memory.
    OutOfMemory,
    /// The logical device was lost.
    Lost,
    /// A driver-reported condition with no defined recovery.
    Unexpected,
    /// The device, adapter or surface cannot be obtained at all.
    Unavailable(String),
}

/// Failures of the resource and view layer.
#[derive(Clone, Copy, Debug, PartialEq, Eq, Structural)]
pub enum ResourceError {
    /// A view's backing resource is no longer resolvable.
    Orphan,
}

} // verus!
