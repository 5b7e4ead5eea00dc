//! One-shot screen capture, modeled and verified.
//!
//! The crate captures a single still frame from a display or window and
//! delivers it as a CPU-readable pixel buffer.  The heart of the crate is the
//! capture session protocol: an asynchronous, event-driven frame-arrival
//! notification is bridged to a single blocking "take one frame" operation
//! through a one-shot hand-off slot, with the subscription and frame pool
//! closed before the waiter is ever signalled.  Around it stand the target
//! resolver (display index or window-title query), the staging-texture
//! resource discipline (copy, map, unmap), and the row repacking that turns a
//! pitched staging buffer into tightly packed RGBA pixels ready for encoding.
//!
//! Platform enumeration, device creation and file output are performed by the
//! surrounding application, which hands this crate plain values; every
//! decision the capture pipeline makes is verified here.

pub mod device;
pub mod encoder;
pub mod errors;
pub mod interop;
pub mod repack;
pub mod resolver;
pub mod session;
pub mod snapshot;
pub mod texture;
