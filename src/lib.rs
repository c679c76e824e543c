//! Verified core of a small Vulkan triangle renderer: swapchain negotiation, adapter
//! selection, the ownership graph that orders teardown, and the per-frame synchronisation
//! state machine. Calls into the graphics driver and the window system stay with the
//! caller, which hands this crate plain values and performs the actions it returns.

pub mod commands;
pub mod device;
pub mod diagnostics;
pub mod error;
pub mod extensions;
pub mod frame_loop;
pub mod resources;
pub mod shader;
pub mod swapchain;

pub use commands::{frame_commands, ClearColor, CommandPool, FrameCommand};
pub use device::{
    find_queue_families, pick_physical_device, queue_family_index_for, queue_family_supports,
    PhysicalDeviceSurface, QueueFamilyIndicies, QUEUE_GRAPHICS_BIT,
};
pub use diagnostics::{log_level_for, LogLevel, DEBUG_MESSAGE_TYPE_MASK, DEBUG_SEVERITY_MASK};
pub use error::SetupError;
pub use extensions::{
    check_extensions_supported, get_device_extension_names, get_names,
    get_required_instance_extensions, get_validation_layers, Extension,
};
pub use frame_loop::{FrameLoop, LoopAction, LoopEvent, Phase};
pub use resources::{GraphError, ResourceGraph, Stage};
pub use shader::decode_shader_code;
pub use swapchain::{
    plan_swapchain, Extent2D, SurfaceCapabilities, SurfaceFormat, SwapChainSupportDetails,
    SwapchainPlan, COLOR_SPACE_SRGB_NONLINEAR, FORMAT_B8G8R8A8_SRGB, PRESENT_MODE_FIFO,
    PRESENT_MODE_MAILBOX,
};
