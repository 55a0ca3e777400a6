//! Resource-lifetime and presentation-surface management core of a minimal
//! real-time rendering engine.
//!
//! The core tracks three tightly coupled concerns: creation and
//! reconfiguration of a presentation surface (swapchain) bound to a window,
//! the ownership graph between GPU resources and their non-owning views
//! (with explicit orphan detection), and the event-driven state machine that
//! sequences device initialization, window creation, swapchain acquisition
//! with bounded retry, and per-frame rendering.
//!
//! All platform work (GPU driver calls, window toolkit dispatch) happens
//! outside this library; the library holds the decisions and the data model,
//! stated in contracts and verified.

pub mod error;
pub mod render_resource;
pub mod texture;
pub mod window;
pub mod render_device;
pub mod swapchain;
pub mod engine;
