use vstd::prelude::*;

verus! {

/// Why a setup step could not go on.
#[derive(Clone, Copy, Debug, PartialEq, Eq, Structural)]
pub enum SetupError {
    /// The hardware list is empty.
    NoHardware,
    /// No discrete GPU exposes a graphics and present capable queue family.
    NoSuitableDevice,
    /// The surface does not offer the FIFO present mode.
    FifoUnsupported,
    /// The surface cannot be used as a color attachment.
    ColorAttachmentUnsupported,
    /// The surface advertises no image format.
    NoSurfaceFormat,
    /// The surface advertises no alpha composition mode.
    NoAlphaComposition,
    /// A pipeline declares bindings that differ from its descriptor layout.
    BindingMismatch,
}

} // verus!
