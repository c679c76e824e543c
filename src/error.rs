use vstd::prelude::*;

verus! {

/// Why bringing up the graphics context failed.
#[derive(Clone, Copy, Debug, PartialEq, Eq, Structural)]
pub enum SetupError {
    /// No adapter offers a graphics queue, a present queue, the swapchain extension and at
    /// least one surface format and present mode.
    NoSuitableAdapter,
    /// The selected adapter has no queue family that accepts draw commands.
    NoGraphicsQueue,
    /// The selected adapter has no queue family that can present to the surface.
    NoPresentQueue,
    /// The surface offers no format, or an image count that cannot be raised by one.
    UnsupportedSurface,
    /// A shader blob whose length is not a multiple of four bytes.
    InvalidShaderCode,
    /// An acquired image index with no framebuffer behind it.
    ImageIndexOutOfRange,
}

} // verus!
