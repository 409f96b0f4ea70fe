//! Why the bridge refuses an operation.

use vstd::prelude::*;

verus! {

/// A refusal. The bridge never panics; a host that treats a refusal as fatal
/// stops on the `Err`.
#[derive(Clone, Copy, Debug, PartialEq, Eq, Structural)]
pub enum BridgeError {
    /// A surface was asked for with a width or height that is not positive.
    InvalidSize,
    /// The process-wide loader slot already serves another engine.
    LoaderAlreadyBound,
    /// The GPU handed back the reserved object name zero.
    NullObject,
    /// The framebuffer status was anything but complete.
    FramebufferIncomplete,
    /// The engine was already constructed, or already torn down.
    NotUninitialized,
    /// The operation needs a live engine and there is none.
    NotActive,
    /// The engine and its surface were already destroyed.
    AlreadyDestroyed,
}

} // verus!
